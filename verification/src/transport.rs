//! Transport manager state.
//!
//! One loop outside the crate owns the physical serial link. Each iteration
//! it reports what happened — an open attempt, a write, a bounded read — and
//! the methods here decide everything else: queueing, eviction, the density
//! signal, failure counting, and disconnect classification. Callers reach
//! the link only through the bounded queues.

use vstd::prelude::*;
use crate::activity::{ActivityFilter, sum_of, window_push};
use crate::queue::{InboundQueue, OutboundQueue, evict_push};
use crate::text::{ansi_stripped, clean_console_text, trim_spec};

verus! {

/// Classification of an I/O failure reported by the platform.
#[derive(Clone, Copy, Debug, PartialEq, Eq, Structural)]
pub enum LinkFault {
    /// The pipe to the adapter broke: the device side is gone.
    BrokenPipe,
    /// The platform refused access: the handle is no longer usable.
    PermissionDenied,
    /// Any other failure; transient, the loop carries on.
    Other,
}

/// Faults that force a disconnect rather than being ignored.
pub open spec fn is_fatal_fault(f: LinkFault) -> bool {
    f == LinkFault::BrokenPipe || f == LinkFault::PermissionDenied
}

/// What one bounded-duration read of the link produced.
pub enum ReadEvent {
    /// Bytes arrived (possibly none, on a zero-length read).
    Data(Vec<u8>),
    /// The read deadline passed with nothing received.
    TimedOut,
    /// The read failed.
    Failed(LinkFault),
}

/// The tri-state connection semantics: whether the USB test tool is
/// enumerable, and whether traffic confirms a live device behind it.
#[derive(Clone, Copy, Debug, PartialEq, Eq, Structural)]
pub enum ConnectionStatus {
    /// The tool itself is not detected.
    ToolAbsent,
    /// The tool is present but no recent traffic confirms a device.
    ToolPresentDeviceUnknown,
    /// The tool is present and traffic shows a live device.
    ToolPresentDeviceLive,
}

/// Sizing of a transport handle.
pub struct TransportConfig {
    /// Bound of the inbound queue (oldest evicted on overflow).
    pub inbound_capacity: usize,
    /// Bound of the outbound queue (new buffers refused when full).
    pub outbound_capacity: usize,
    /// Window size of the activity filter.
    pub window_size: usize,
    /// Consecutive failed open attempts before the tool counts as absent.
    pub max_open_failures: u32,
}

impl TransportConfig {
    pub open spec fn valid(&self) -> bool {
        &&& 1 <= self.inbound_capacity
        &&& 1 <= self.outbound_capacity
        &&& 1 <= self.window_size <= 0x1000_0000
        &&& 1 <= self.max_open_failures
    }
}

/// State of the single owner of the physical link.
pub struct TransportHandle {
    connected: bool,
    tool_connected: bool,
    open_failures: u32,
    max_open_failures: u32,
    inbound: InboundQueue,
    outbound: OutboundQueue,
    filter: ActivityFilter,
}

impl TransportHandle {
    /// Whether an open handle to the link currently exists.
    pub closed spec fn is_connected(&self) -> bool {
        self.connected
    }

    /// Whether the USB tool is currently believed present.
    pub closed spec fn tool_present(&self) -> bool {
        self.tool_connected
    }

    /// Consecutive failed open attempts so far.
    pub closed spec fn failures(&self) -> u32 {
        self.open_failures
    }

    /// The configured failure threshold.
    pub closed spec fn failure_limit(&self) -> u32 {
        self.max_open_failures
    }

    /// The queued inbound buffers, oldest first.
    pub closed spec fn inbound(&self) -> Seq<Vec<u8>> {
        self.inbound@
    }

    /// The queued outbound buffers, next-to-send first.
    pub closed spec fn outbound(&self) -> Seq<Vec<u8>> {
        self.outbound@
    }

    /// The activity window, oldest sample first.
    pub closed spec fn window(&self) -> Seq<u32> {
        self.filter@
    }

    /// The current density: the sum of the activity window.
    pub open spec fn density(&self) -> int {
        sum_of(self.window())
    }

    pub closed spec fn inbound_capacity(&self) -> nat {
        self.inbound.spec_capacity()
    }

    pub closed spec fn outbound_capacity(&self) -> nat {
        self.outbound.spec_capacity()
    }

    pub closed spec fn window_size(&self) -> nat {
        self.filter.spec_capacity()
    }

    pub closed spec fn well_formed(&self) -> bool {
        &&& self.inbound.well_formed()
        &&& self.outbound.well_formed()
        &&& self.filter.well_formed()
        &&& 1 <= self.max_open_failures
        &&& self.open_failures <= self.max_open_failures
    }

    /// Everything the configuration fixes for the handle's lifetime.
    pub open spec fn same_shape(&self, other: &TransportHandle) -> bool {
        &&& self.inbound_capacity() == other.inbound_capacity()
        &&& self.outbound_capacity() == other.outbound_capacity()
        &&& self.window_size() == other.window_size()
        &&& self.failure_limit() == other.failure_limit()
    }

    pub fn new(config: &TransportConfig) -> (r: TransportHandle)
        requires
            config.valid(),
        ensures
            r.well_formed(),
            !r.is_connected(),
            !r.tool_present(),
            r.failures() == 0,
            r.inbound() == Seq::<Vec<u8>>::empty(),
            r.outbound() == Seq::<Vec<u8>>::empty(),
            r.window() == Seq::<u32>::empty(),
            r.inbound_capacity() == config.inbound_capacity,
            r.outbound_capacity() == config.outbound_capacity,
            r.window_size() == config.window_size,
            r.failure_limit() == config.max_open_failures,
    {
        TransportHandle {
            connected: false,
            tool_connected: false,
            open_failures: 0,
            max_open_failures: config.max_open_failures,
            inbound: InboundQueue::new(config.inbound_capacity),
            outbound: OutboundQueue::new(config.outbound_capacity),
            filter: ActivityFilter::new(config.window_size),
        }
    }

    /// Offers bytes for transmission, in enqueue order. A full queue
    /// refuses the buffer; the caller sees which happened and nothing
    /// blocks.
    pub fn serial_send(&mut self, data: Vec<u8>) -> (accepted: bool)
        requires
            old(self).well_formed(),
        ensures
            final(self).well_formed(),
            final(self).same_shape(old(self)),
            accepted == (old(self).outbound().len() < old(self).outbound_capacity()),
            accepted ==> final(self).outbound() == old(self).outbound().push(data),
            !accepted ==> final(self).outbound() == old(self).outbound(),
            final(self).inbound() == old(self).inbound(),
            final(self).window() == old(self).window(),
            final(self).is_connected() == old(self).is_connected(),
            final(self).tool_present() == old(self).tool_present(),
            final(self).failures() == old(self).failures(),
    {
        self.outbound.try_push(data)
    }

    /// Takes the oldest received buffer without blocking; an empty vector
    /// when nothing is queued.
    pub fn serial_receive(&mut self) -> (r: Vec<u8>)
        requires
            old(self).well_formed(),
        ensures
            final(self).well_formed(),
            final(self).same_shape(old(self)),
            old(self).inbound().len() > 0 ==> r == old(self).inbound().first() && final(self).inbound() == old(self).inbound().drop_first(),
            old(self).inbound().len() == 0 ==> r@ == Seq::<u8>::empty() && final(self).inbound()
                == old(self).inbound(),
            final(self).outbound() == old(self).outbound(),
            final(self).window() == old(self).window(),
            final(self).is_connected() == old(self).is_connected(),
            final(self).tool_present() == old(self).tool_present(),
            final(self).failures() == old(self).failures(),
    {
        match self.inbound.pop_oldest() {
            Some(buf) => buf,
            None => Vec::new(),
        }
    }

    /// Takes the oldest received buffer and prepares it for matching:
    /// ANSI escape sequences stripped, surrounding whitespace trimmed.
    pub fn serial_receive_clean(&mut self) -> (r: Vec<u8>)
        requires
            old(self).well_formed(),
        ensures
            final(self).well_formed(),
            final(self).same_shape(old(self)),
            old(self).inbound().len() > 0 ==> r@ == trim_spec(
                ansi_stripped(old(self).inbound().first()@),
            ) && final(self).inbound() == old(self).inbound().drop_first(),
            old(self).inbound().len() == 0 ==> r@ == Seq::<u8>::empty() && final(self).inbound()
                == old(self).inbound(),
            final(self).outbound() == old(self).outbound(),
            final(self).window() == old(self).window(),
            final(self).is_connected() == old(self).is_connected(),
            final(self).tool_present() == old(self).tool_present(),
            final(self).failures() == old(self).failures(),
    {
        let raw = self.serial_receive();
        clean_console_text(raw.as_slice())
    }

    /// Records the outcome of one scan-and-open attempt while disconnected.
    /// Success resets the failure counter and marks the tool present; a
    /// failure clears the activity window and, past the threshold, marks
    /// the tool absent.
    pub fn on_connect_result(&mut self, opened: bool)
        requires
            old(self).well_formed(),
            !old(self).is_connected(),
        ensures
            final(self).well_formed(),
            final(self).same_shape(old(self)),
            final(self).is_connected() == opened,
            opened ==> final(self).tool_present() && final(self).failures() == 0 && final(self).window() == old(self).window(),
            !opened ==> {
                &&& final(self).window() == Seq::<u32>::empty()
                &&& final(self).failures() == if old(self).failures() + 1 <= old(self).failure_limit() {
                    old(self).failures() + 1
                } else {
                    old(self).failure_limit() as int
                }
                &&& final(self).tool_present() == (final(self).failures() < final(self).failure_limit() && old(self).tool_present())
            },
            final(self).inbound() == old(self).inbound(),
            final(self).outbound() == old(self).outbound(),
    {
        if opened {
            self.connected = true;
            self.tool_connected = true;
            self.open_failures = 0;
        } else {
            self.filter.clear();
            if self.open_failures < self.max_open_failures {
                self.open_failures = self.open_failures + 1;
            }
            if self.open_failures >= self.max_open_failures {
                self.tool_connected = false;
            }
        }
    }

    /// Records the outcome of one write attempt: a fatal fault (broken
    /// pipe, permission denied) forces a disconnect; anything else is
    /// ignored.
    pub fn on_write_result(&mut self, fault: Option<LinkFault>)
        requires
            old(self).well_formed(),
        ensures
            final(self).well_formed(),
            final(self).same_shape(old(self)),
            final(self).is_connected() == (old(self).is_connected() && !(fault matches Some(f)
                && is_fatal_fault(f))),
            final(self).inbound() == old(self).inbound(),
            final(self).outbound() == old(self).outbound(),
            final(self).window() == old(self).window(),
            final(self).tool_present() == old(self).tool_present(),
            final(self).failures() == old(self).failures(),
    {
        match fault {
            Some(f) => {
                if fault_forces_disconnect(f) {
                    self.connected = false;
                }
            },
            None => {},
        }
    }

    /// Records the outcome of one bounded read. Data pushes its length into
    /// the activity window and, when non-empty, joins the inbound queue
    /// (evicting the oldest buffer on overflow); a timeout pushes a zero so
    /// silence drains the density; a fatal fault forces a disconnect.
    /// Returns the density after the event.
    pub fn on_read_result(&mut self, event: ReadEvent) -> (density: u64)
        requires
            old(self).well_formed(),
            old(self).is_connected(),
            event matches ReadEvent::Data(d) ==> d@.len() <= u32::MAX,
        ensures
            final(self).well_formed(),
            final(self).same_shape(old(self)),
            density == final(self).density(),
            match event {
                ReadEvent::Data(d) => {
                    &&& final(self).window() == window_push(
                        old(self).window(),
                        d@.len() as u32,
                        old(self).window_size(),
                    )
                    &&& final(self).inbound() == if d@.len() > 0 {
                        evict_push(old(self).inbound(), d, old(self).inbound_capacity())
                    } else {
                        old(self).inbound()
                    }
                    &&& final(self).is_connected()
                },
                ReadEvent::TimedOut => {
                    &&& final(self).window() == window_push(
                        old(self).window(),
                        0u32,
                        old(self).window_size(),
                    )
                    &&& final(self).inbound() == old(self).inbound()
                    &&& final(self).is_connected()
                },
                ReadEvent::Failed(f) => {
                    &&& final(self).window() == old(self).window()
                    &&& final(self).inbound() == old(self).inbound()
                    &&& final(self).is_connected() == !is_fatal_fault(f)
                },
            },
            final(self).outbound() == old(self).outbound(),
            final(self).tool_present() == old(self).tool_present(),
            final(self).failures() == old(self).failures(),
    {
        match event {
            ReadEvent::Data(d) => {
                let len: usize = d.len();
                let density = self.filter.push(len as u32);
                if len > 0 {
                    self.inbound.push_evict(d);
                }
                density
            },
            ReadEvent::TimedOut => self.filter.push(0),
            ReadEvent::Failed(f) => {
                if fault_forces_disconnect(f) {
                    self.connected = false;
                }
                self.filter.current_density()
            },
        }
    }

    /// Takes the next buffer to write to the link, if any; the loop drains
    /// at most one per iteration.
    pub fn next_outbound(&mut self) -> (r: Option<Vec<u8>>)
        requires
            old(self).well_formed(),
        ensures
            final(self).well_formed(),
            final(self).same_shape(old(self)),
            match r {
                Some(buf) => old(self).outbound().len() > 0 && buf == old(self).outbound().first()
                    && final(self).outbound() == old(self).outbound().drop_first(),
                None => old(self).outbound().len() == 0 && final(self).outbound() == old(
                    self,
                ).outbound(),
            },
            final(self).inbound() == old(self).inbound(),
            final(self).window() == old(self).window(),
            final(self).is_connected() == old(self).is_connected(),
            final(self).tool_present() == old(self).tool_present(),
            final(self).failures() == old(self).failures(),
    {
        self.outbound.pop_next()
    }

    /// Whether an open handle to the link currently exists.
    pub fn is_link_open(&self) -> (r: bool)
        ensures
            r == self.is_connected(),
    {
        self.connected
    }

    /// Whether the USB tool is currently detected.
    pub fn is_usb_tool_connected(&self) -> (r: bool)
        ensures
            r == self.tool_present(),
    {
        self.tool_connected
    }

    /// The current data density over the activity window.
    pub fn get_current_data_density(&self) -> (r: u64)
        requires
            self.well_formed(),
        ensures
            r == self.density(),
    {
        self.filter.current_density()
    }

    /// The tri-state connection status: the tool may be absent, present
    /// with no traffic to confirm a device, or present with a live device
    /// behind it.
    pub fn connection_status(&self) -> (r: ConnectionStatus)
        requires
            self.well_formed(),
        ensures
            r == spec_connection_status(self.tool_present(), self.density()),
    {
        if !self.tool_connected {
            ConnectionStatus::ToolAbsent
        } else if self.get_current_data_density() == 0 {
            ConnectionStatus::ToolPresentDeviceUnknown
        } else {
            proof {
                crate::activity::lemma_sum_nonneg(self.window());
            }
            ConnectionStatus::ToolPresentDeviceLive
        }
    }
}

/// How tool presence and density determine the connection status.
pub open spec fn spec_connection_status(tool_present: bool, density: int) -> ConnectionStatus {
    if !tool_present {
        ConnectionStatus::ToolAbsent
    } else if density == 0 {
        ConnectionStatus::ToolPresentDeviceUnknown
    } else {
        ConnectionStatus::ToolPresentDeviceLive
    }
}

/// Whether a reported fault must tear the connection down.
pub fn fault_forces_disconnect(f: LinkFault) -> (r: bool)
    ensures
        r == is_fatal_fault(f),
{
    match f {
        LinkFault::BrokenPipe => true,
        LinkFault::PermissionDenied => true,
        LinkFault::Other => false,
    }
}

} // verus!
