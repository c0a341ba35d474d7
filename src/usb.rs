//! USB device controller: endpoint allocation, bus events, interrupt
//! dispatch and the checks of the control pipe and of data endpoints.
//!
//! The controller multiplexes its per-endpoint registers through one index
//! register and has a fixed FIFO per endpoint. FIFO sizes are counted in
//! units of 8 bytes.
use vstd::prelude::*;

use embassy_usb_driver::{Direction, EndpointAllocError, EndpointError, EndpointType, Event};

verus! {

/// Number of endpoints, the control endpoint 0 included.
pub const EP_COUNT: usize = 6;

/// Frequency the USB kernel clock must run at.
pub const USB_CLOCK_HZ: u32 = 48_000_000;

/// Size of a setup packet.
pub const SETUP_PACKET_LEN: u16 = 8;

/// FIFO capacity of endpoint `index`, in units of 8 bytes.
pub open spec fn spec_fifo_capacity(index: int) -> int {
    if index <= 1 {
        8
    } else if index <= 4 {
        16
    } else {
        64
    }
}

/// FIFO units a packet of `len` bytes needs.
pub open spec fn fifo_units(len: u16) -> int {
    (len + 7) / 8
}

/// FIFO capacity of endpoint `index`, in units of 8 bytes.
pub fn max_fifo_size_btyes(index: usize) -> (r: u8)
    requires
        index < EP_COUNT,
    ensures
        r == spec_fifo_capacity(index as int),
{
    if index <= 1 {
        8
    } else if index <= 4 {
        16
    } else {
        64
    }
}

/// FIFO units a packet of `len` bytes needs, where that fits in a byte.
pub fn calc_max_fifo_size_btyes(len: u16) -> (r: u8)
    requires
        fifo_units(len) <= u8::MAX,
    ensures
        r == fifo_units(len),
{
    ((len as u32 + 7) / 8) as u8
}

fn same_type(a: EndpointType, b: EndpointType) -> (r: bool)
    ensures
        r == (a == b),
{
    match (a, b) {
        (EndpointType::Control, EndpointType::Control) => true,
        (EndpointType::Isochronous, EndpointType::Isochronous) => true,
        (EndpointType::Bulk, EndpointType::Bulk) => true,
        (EndpointType::Interrupt, EndpointType::Interrupt) => true,
        _ => false,
    }
}

/// Configuration of one endpoint index; valid only once a direction of it
/// is used.
#[derive(Clone, Copy, Debug)]
pub struct EndPointConfig {
    pub ep_type: EndpointType,
    pub in_max_fifo_size_btyes: u8,
    pub out_max_fifo_size_btyes: u8,
}

/// Allocation state of one endpoint index.
#[derive(Clone, Copy, Debug)]
pub struct EndpointData {
    pub ep_conf: EndPointConfig,
    pub used_in: bool,
    pub used_out: bool,
}

/// Marker for the IN direction.
pub struct In;

impl In {
    pub fn dir() -> (r: Direction)
        ensures
            r == Direction::In,
    {
        Direction::In
    }
}

/// Marker for the OUT direction.
pub struct Out;

impl Out {
    pub fn dir() -> (r: Direction)
        ensures
            r == Direction::Out,
    {
        Direction::Out
    }
}

/// What an allocated endpoint is.
#[derive(Clone, Copy, Debug)]
pub struct EndpointInfo {
    pub index: usize,
    pub direction: Direction,
    pub ep_type: EndpointType,
    pub max_packet_size: u16,
    pub interval_ms: u8,
}

/// An allocated endpoint.
#[derive(Clone, Copy, Debug)]
pub struct Endpoint {
    pub info: EndpointInfo,
}

pub open spec fn used_dir(ep: EndpointData, dir: Direction) -> bool {
    match dir {
        Direction::Out => ep.used_out,
        Direction::In => ep.used_in,
    }
}

/// `ep` after one of its directions is allocated for `ep_type` with a FIFO
/// of `units`.
pub open spec fn allocated(ep: EndpointData, ep_type: EndpointType, units: int, dir: Direction) -> EndpointData {
    EndpointData {
        ep_conf: EndPointConfig {
            ep_type,
            in_max_fifo_size_btyes: if dir == Direction::In {
                units as u8
            } else {
                ep.ep_conf.in_max_fifo_size_btyes
            },
            out_max_fifo_size_btyes: if dir == Direction::Out {
                units as u8
            } else {
                ep.ep_conf.out_max_fifo_size_btyes
            },
        },
        used_in: ep.used_in || dir == Direction::In,
        used_out: ep.used_out || dir == Direction::Out,
    }
}

/// Allocation table and sharing policy, as values.
pub struct DriverModel {
    pub alloc: Seq<EndpointData>,
    pub allow_shared_fifo: bool,
}

impl DriverModel {
    /// Whether index `i` can take a `dir` endpoint of `ep_type` that needs
    /// `units` FIFO units: not the control endpoint, a FIFO large enough,
    /// and either unused or, where sharing is allowed, used by the same
    /// transfer type in the other direction only.
    pub open spec fn candidate(self, i: int, ep_type: EndpointType, units: int, dir: Direction) -> bool {
        let ep = self.alloc[i];
        let used = ep.used_in || ep.used_out;
        &&& 1 <= i < EP_COUNT
        &&& !(used && !self.allow_shared_fifo)
        &&& units <= spec_fifo_capacity(i)
        &&& (!used || (ep.ep_conf.ep_type == ep_type && !used_dir(ep, dir)))
    }

    /// Whether some index can take such an endpoint.
    pub open spec fn can_allocate(self, ep_type: EndpointType, max_packet_size: u16, dir: Direction) -> bool {
        exists|i: int| self.candidate(i, ep_type, fifo_units(max_packet_size), dir)
    }
}

pub open spec fn opposite(dir: Direction) -> Direction {
    match dir {
        Direction::In => Direction::Out,
        Direction::Out => Direction::In,
    }
}

/// Where sharing is not allowed, once an allocation has placed an
/// endpoint at index `i`, no later allocation, whatever its transfer type
/// and direction, can be placed at `i`.
pub proof fn lemma_no_reuse_without_sharing(
    d: DriverModel,
    i: int,
    first_type: EndpointType,
    first_units: int,
    first_dir: Direction,
    ep_type: EndpointType,
    units: int,
    dir: Direction,
)
    requires
        !d.allow_shared_fifo,
        0 <= i < d.alloc.len(),
    ensures
        !(DriverModel {
            alloc: d.alloc.update(i, allocated(d.alloc[i], first_type, first_units, first_dir)),
            allow_shared_fifo: d.allow_shared_fifo,
        }).candidate(i, ep_type, units, dir),
{
}

/// Where sharing is allowed, once an allocation has placed an endpoint of
/// `ep_type` at a free index `i`, an allocation of the same transfer type
/// in the opposite direction succeeds whenever its packet fits the FIFO of
/// `i`.
pub proof fn lemma_opposite_direction_with_sharing(
    d: DriverModel,
    i: int,
    ep_type: EndpointType,
    first_units: int,
    dir: Direction,
    max_packet_size: u16,
)
    requires
        d.allow_shared_fifo,
        1 <= i < EP_COUNT,
        d.alloc.len() == EP_COUNT,
        !d.alloc[i].used_in,
        !d.alloc[i].used_out,
        fifo_units(max_packet_size) <= spec_fifo_capacity(i),
    ensures
        (DriverModel {
            alloc: d.alloc.update(i, allocated(d.alloc[i], ep_type, first_units, dir)),
            allow_shared_fifo: d.allow_shared_fifo,
        }).can_allocate(ep_type, max_packet_size, opposite(dir)),
{
    let after = DriverModel {
        alloc: d.alloc.update(i, allocated(d.alloc[i], ep_type, first_units, dir)),
        allow_shared_fifo: d.allow_shared_fifo,
    };
    assert(after.candidate(i, ep_type, fifo_units(max_packet_size), opposite(dir)));
}

/// Endpoint allocator of the device driver.
pub struct Driver {
    alloc: Vec<EndpointData>,
    allow_shared_fifo: bool,
}

impl View for Driver {
    type V = DriverModel;

    closed spec fn view(&self) -> DriverModel {
        DriverModel { alloc: self.alloc@, allow_shared_fifo: self.allow_shared_fifo }
    }
}

pub open spec fn fresh_endpoint() -> EndpointData {
    EndpointData {
        ep_conf: EndPointConfig {
            ep_type: EndpointType::Bulk,
            in_max_fifo_size_btyes: 1,
            out_max_fifo_size_btyes: 1,
        },
        used_in: false,
        used_out: false,
    }
}

impl Driver {
    /// The table is complete and endpoint 0 stays free for the control pipe.
    pub closed spec fn wf(&self) -> bool {
        &&& self.alloc@.len() == EP_COUNT
        &&& !self.alloc@[0].used_in
        &&& !self.alloc@[0].used_out
    }

    /// A well-formed table has an entry for every endpoint index.
    pub proof fn lemma_wf_len(&self)
        requires
            self.wf(),
        ensures
            self@.alloc.len() == EP_COUNT,
            !self@.alloc[0].used_in && !self@.alloc[0].used_out,
    {
    }

    /// No endpoint allocated. With `allow_shared_fifo`, the IN and OUT
    /// directions of one index may be allocated to endpoints of the same
    /// transfer type.
    pub fn new(allow_shared_fifo: bool) -> (r: Self)
        ensures
            r.wf(),
            r@.allow_shared_fifo == allow_shared_fifo,
            r@.alloc == Seq::new(EP_COUNT as nat, |i: int| fresh_endpoint()),
    {
        let mut alloc: Vec<EndpointData> = Vec::new();
        let mut i: usize = 0;
        while i < EP_COUNT
            invariant
                i <= EP_COUNT,
                alloc@ =~= Seq::new(i as nat, |j: int| fresh_endpoint()),
            decreases EP_COUNT - i,
        {
            alloc.push(
                EndpointData {
                    ep_conf: EndPointConfig {
                        ep_type: EndpointType::Bulk,
                        in_max_fifo_size_btyes: 1,
                        out_max_fifo_size_btyes: 1,
                    },
                    used_in: false,
                    used_out: false,
                },
            );
            i = i + 1;
            assert(alloc@ =~= Seq::new(i as nat, |j: int| fresh_endpoint()));
        }
        Driver { alloc, allow_shared_fifo }
    }

    /// The allocation state of index `index`.
    pub fn endpoint_data(&self, index: usize) -> (r: EndpointData)
        requires
            self.wf(),
            index < EP_COUNT,
        ensures
            r == self@.alloc[index as int],
    {
        self.alloc[index]
    }

    fn is_candidate(&self, i: usize, ep_type: EndpointType, units: u32, dir: Direction) -> (r: bool)
        requires
            self.wf(),
            1 <= i < EP_COUNT,
        ensures
            r == self@.candidate(i as int, ep_type, units as int, dir),
    {
        let ep = self.alloc[i];
        let used = ep.used_out || ep.used_in;
        if used && !self.allow_shared_fifo {
            return false;
        }
        if units > max_fifo_size_btyes(i) as u32 {
            return false;
        }
        let used_dir = match dir {
            Direction::Out => ep.used_out,
            Direction::In => ep.used_in,
        };
        !used || (same_type(ep.ep_conf.ep_type, ep_type) && !used_dir)
    }

    fn find_slot(&self, ep_type: EndpointType, units: u32, dir: Direction) -> (r: Option<usize>)
        requires
            self.wf(),
        ensures
            r is None ==> forall|i: int| !self@.candidate(i, ep_type, units as int, dir),
            r is Some ==> self@.candidate(r->0 as int, ep_type, units as int, dir) && forall|j: int|
                1 <= j < r->0 ==> !self@.candidate(j, ep_type, units as int, dir),
    {
        let mut i: usize = 1;
        while i < EP_COUNT
            invariant
                self.wf(),
                1 <= i <= EP_COUNT,
                forall|j: int| 1 <= j < i ==> !self@.candidate(j, ep_type, units as int, dir),
            decreases EP_COUNT - i,
        {
            if self.is_candidate(i, ep_type, units, dir) {
                return Some(i);
            }
            i = i + 1;
        }
        None
    }

    /// Allocates a `dir` endpoint: the first index after 0 that can take
    /// it (see `DriverModel::candidate`). Fails, with nothing changed, when
    /// no index can take it.
    pub fn alloc_endpoint(
        &mut self,
        ep_type: EndpointType,
        max_packet_size: u16,
        interval_ms: u8,
        dir: Direction,
    ) -> (r: Result<Endpoint, EndpointAllocError>)
        requires
            old(self).wf(),
        ensures
            final(self).wf(),
            final(self)@.alloc.len() == EP_COUNT,
            final(self)@.allow_shared_fifo == old(self)@.allow_shared_fifo,
            r is Ok <==> old(self)@.can_allocate(ep_type, max_packet_size, dir),
            r is Err ==> final(self)@ == old(self)@,
            r is Ok ==> ({
                let i = r->Ok_0.info.index as int;
                let units = fifo_units(max_packet_size);
                &&& old(self)@.candidate(i, ep_type, units, dir)
                &&& forall|j: int| 1 <= j < i ==> !old(self)@.candidate(j, ep_type, units, dir)
                &&& final(self)@.alloc == old(self)@.alloc.update(
                    i,
                    allocated(old(self)@.alloc[i], ep_type, units, dir),
                )
                &&& r->Ok_0.info.direction == dir
                &&& r->Ok_0.info.ep_type == ep_type
                &&& r->Ok_0.info.max_packet_size == max_packet_size
                &&& r->Ok_0.info.interval_ms == interval_ms
            }),
    {
        let needed = (max_packet_size as u32 + 7) / 8;
        let index = match self.find_slot(ep_type, needed, dir) {
            Some(i) => i,
            None => {
                return Err(EndpointAllocError);
            },
        };
        let units = calc_max_fifo_size_btyes(max_packet_size);
        self.assign(index, ep_type, units, dir);
        Ok(
            Endpoint {
                info: EndpointInfo {
                    index,
                    direction: dir,
                    ep_type,
                    max_packet_size,
                    interval_ms,
                },
            },
        )
    }

    fn assign(&mut self, index: usize, ep_type: EndpointType, units: u8, dir: Direction)
        requires
            old(self)@.alloc.len() == EP_COUNT,
            index < EP_COUNT,
        ensures
            final(self)@.alloc == old(self)@.alloc.update(
                index as int,
                allocated(old(self)@.alloc[index as int], ep_type, units as int, dir),
            ),
            final(self)@.allow_shared_fifo == old(self)@.allow_shared_fifo,
    {
        let mut ep = self.alloc[index];
        ep.ep_conf.ep_type = ep_type;
        match dir {
            Direction::Out => {
                ep.used_out = true;
                ep.ep_conf.out_max_fifo_size_btyes = units;
            },
            Direction::In => {
                ep.used_in = true;
                ep.ep_conf.in_max_fifo_size_btyes = units;
            },
        }
        self.alloc.set(index, ep);
    }

    /// Allocates an IN endpoint.
    pub fn alloc_endpoint_in(
        &mut self,
        ep_type: EndpointType,
        max_packet_size: u16,
        interval_ms: u8,
    ) -> (r: Result<Endpoint, EndpointAllocError>)
        requires
            old(self).wf(),
        ensures
            final(self).wf(),
            final(self)@.alloc.len() == EP_COUNT,
            final(self)@.allow_shared_fifo == old(self)@.allow_shared_fifo,
            r is Ok <==> old(self)@.can_allocate(ep_type, max_packet_size, Direction::In),
            r is Ok ==> old(self)@.candidate(
                r->Ok_0.info.index as int,
                ep_type,
                fifo_units(max_packet_size),
                Direction::In,
            ) && forall|j: int|
                1 <= j < r->Ok_0.info.index ==> !old(self)@.candidate(
                    j,
                    ep_type,
                    fifo_units(max_packet_size),
                    Direction::In,
                ),
            r is Err ==> final(self)@ == old(self)@,
            r is Ok ==> final(self)@.alloc == old(self)@.alloc.update(
                r->Ok_0.info.index as int,
                allocated(
                    old(self)@.alloc[r->Ok_0.info.index as int],
                    ep_type,
                    fifo_units(max_packet_size),
                    Direction::In,
                ),
            ) && r->Ok_0.info.direction == Direction::In,
    {
        self.alloc_endpoint(ep_type, max_packet_size, interval_ms, Direction::In)
    }

    /// Allocates an OUT endpoint.
    pub fn alloc_endpoint_out(
        &mut self,
        ep_type: EndpointType,
        max_packet_size: u16,
        interval_ms: u8,
    ) -> (r: Result<Endpoint, EndpointAllocError>)
        requires
            old(self).wf(),
        ensures
            final(self).wf(),
            final(self)@.alloc.len() == EP_COUNT,
            final(self)@.allow_shared_fifo == old(self)@.allow_shared_fifo,
            r is Ok <==> old(self)@.can_allocate(ep_type, max_packet_size, Direction::Out),
            r is Ok ==> old(self)@.candidate(
                r->Ok_0.info.index as int,
                ep_type,
                fifo_units(max_packet_size),
                Direction::Out,
            ) && forall|j: int|
                1 <= j < r->Ok_0.info.index ==> !old(self)@.candidate(
                    j,
                    ep_type,
                    fifo_units(max_packet_size),
                    Direction::Out,
                ),
            r is Err ==> final(self)@ == old(self)@,
            r is Ok ==> final(self)@.alloc == old(self)@.alloc.update(
                r->Ok_0.info.index as int,
                allocated(
                    old(self)@.alloc[r->Ok_0.info.index as int],
                    ep_type,
                    fifo_units(max_packet_size),
                    Direction::Out,
                ),
            ) && r->Ok_0.info.direction == Direction::Out,
    {
        self.alloc_endpoint(ep_type, max_packet_size, interval_ms, Direction::Out)
    }

    /// Allocates both directions of endpoint 0 for the control pipe and
    /// hands over the bus and the control pipe.
    pub fn start(self, control_max_packet_size: u16) -> (r: (Bus, ControlPipe))
        requires
            self.wf(),
            fifo_units(control_max_packet_size) <= spec_fifo_capacity(0),
        ensures
            r.0.wf(),
            r.0@.ep_confs.len() == EP_COUNT,
            forall|i: int|
                1 <= i < EP_COUNT ==> #[trigger] r.0@.ep_confs[i] == self@.alloc[i].ep_conf,
            r.0@.ep_confs[0] == (EndPointConfig {
                ep_type: EndpointType::Control,
                in_max_fifo_size_btyes: fifo_units(control_max_packet_size) as u8,
                out_max_fifo_size_btyes: fifo_units(control_max_packet_size) as u8,
            }),
            !r.0@.inited,
            forall|i: int| 0 <= i < EP_COUNT ==> !(#[trigger] r.0@.in_enabled[i]),
            forall|i: int| 0 <= i < EP_COUNT ==> !(#[trigger] r.0@.out_enabled[i]),
            r.1.max_packet_size == control_max_packet_size,
            r.1.ep_in.info.index == 0 && r.1.ep_in.info.direction == Direction::In,
            r.1.ep_out.info.index == 0 && r.1.ep_out.info.direction == Direction::Out,
            r.1.ep_in.info.ep_type == EndpointType::Control,
            r.1.ep_out.info.ep_type == EndpointType::Control,
            r.1.ep_in.info.max_packet_size == control_max_packet_size,
            r.1.ep_out.info.max_packet_size == control_max_packet_size,
    {
        let mut this = self;
        let units = calc_max_fifo_size_btyes(control_max_packet_size);
        this.assign(0, EndpointType::Control, units, Direction::Out);
        this.assign(0, EndpointType::Control, units, Direction::In);
        let ep_out = Endpoint {
            info: EndpointInfo {
                index: 0,
                direction: Direction::Out,
                ep_type: EndpointType::Control,
                max_packet_size: control_max_packet_size,
                interval_ms: 0,
            },
        };
        let ep_in = Endpoint {
            info: EndpointInfo {
                index: 0,
                direction: Direction::In,
                ep_type: EndpointType::Control,
                max_packet_size: control_max_packet_size,
                interval_ms: 0,
            },
        };
        let mut ep_confs: Vec<EndPointConfig> = Vec::new();
        let mut in_enabled: Vec<bool> = Vec::new();
        let mut out_enabled: Vec<bool> = Vec::new();
        let mut i: usize = 0;
        while i < EP_COUNT
            invariant
                this@.alloc.len() == EP_COUNT,
                i <= EP_COUNT,
                ep_confs@.len() == i,
                in_enabled@.len() == i,
                out_enabled@.len() == i,
                forall|j: int| 0 <= j < i ==> #[trigger] ep_confs@[j] == this@.alloc[j].ep_conf,
                forall|j: int| 0 <= j < i ==> !(#[trigger] in_enabled@[j]),
                forall|j: int| 0 <= j < i ==> !(#[trigger] out_enabled@[j]),
            decreases EP_COUNT - i,
        {
            ep_confs.push(this.alloc[i].ep_conf);
            in_enabled.push(false);
            out_enabled.push(false);
            i = i + 1;
        }
        (
            Bus { ep_confs, inited: false, in_enabled, out_enabled },
            ControlPipe { max_packet_size: control_max_packet_size, ep_in, ep_out },
        )
    }
}

/// Bus events latched by the interrupt handler and not yet reported.
#[derive(Clone, Copy, Debug, PartialEq, Eq, Structural)]
pub struct IrqFlags {
    pub reset: bool,
    pub suspend: bool,
    pub resume: bool,
}

/// Endpoint configurations, first-poll state and enabled directions, as
/// values.
pub struct BusModel {
    pub ep_confs: Seq<EndPointConfig>,
    pub inited: bool,
    pub in_enabled: Seq<bool>,
    pub out_enabled: Seq<bool>,
}

/// Settings the controller needs when a direction of an endpoint is
/// enabled.
#[derive(Clone, Copy, Debug, PartialEq, Eq, Structural)]
pub struct EndpointSetup {
    /// FIFO size in units of 8 bytes.
    pub max_fifo_size_btyes: u8,
    /// Whether the endpoint is isochronous.
    pub iso: bool,
}

/// The USB bus.
pub struct Bus {
    ep_confs: Vec<EndPointConfig>,
    inited: bool,
    in_enabled: Vec<bool>,
    out_enabled: Vec<bool>,
}

impl View for Bus {
    type V = BusModel;

    closed spec fn view(&self) -> BusModel {
        BusModel {
            ep_confs: self.ep_confs@,
            inited: self.inited,
            in_enabled: self.in_enabled@,
            out_enabled: self.out_enabled@,
        }
    }
}

/// The event that a poll reports given the first-poll state and the
/// latched flags, in order of precedence.
pub open spec fn spec_poll(inited: bool, flags: IrqFlags) -> Option<Event> {
    if !inited {
        Some(Event::PowerDetected)
    } else if flags.resume {
        Some(Event::Resume)
    } else if flags.reset {
        Some(Event::Reset)
    } else if flags.suspend {
        Some(Event::Suspend)
    } else {
        None
    }
}

impl Bus {
    pub closed spec fn wf(&self) -> bool {
        &&& self.ep_confs@.len() == EP_COUNT
        &&& self.in_enabled@.len() == EP_COUNT
        &&& self.out_enabled@.len() == EP_COUNT
    }

    /// One look at the bus: the first poll reports power (bus power is not
    /// sensed); later polls report and clear one latched flag, resume
    /// before reset before suspend, or `None` when none is latched.
    pub fn poll(&mut self, flags: &mut IrqFlags) -> (r: Option<Event>)
        ensures
            r == spec_poll(old(self)@.inited, *old(flags)),
            old(self).wf() ==> final(self).wf(),
            final(self)@.inited,
            final(self)@.ep_confs == old(self)@.ep_confs,
            final(self)@.in_enabled == old(self)@.in_enabled,
            final(self)@.out_enabled == old(self)@.out_enabled,
            *final(flags) == match r {
                Some(Event::Resume) => IrqFlags { resume: false, ..*old(flags) },
                Some(Event::Reset) => IrqFlags { reset: false, ..*old(flags) },
                Some(Event::Suspend) => IrqFlags { suspend: false, ..*old(flags) },
                _ => *old(flags),
            },
    {
        if !self.inited {
            self.inited = true;
            return Some(Event::PowerDetected);
        }
        if flags.resume {
            flags.resume = false;
            return Some(Event::Resume);
        }
        if flags.reset {
            flags.reset = false;
            return Some(Event::Reset);
        }
        if flags.suspend {
            flags.suspend = false;
            return Some(Event::Suspend);
        }
        None
    }

    /// Whether direction `dir` of endpoint `index` is enabled.
    pub fn is_enabled(&self, index: usize, dir: Direction) -> (r: bool)
        requires
            self.wf(),
            index < EP_COUNT,
        ensures
            r == match dir {
                Direction::In => self@.in_enabled[index as int],
                Direction::Out => self@.out_enabled[index as int],
            },
    {
        match dir {
            Direction::In => self.in_enabled[index],
            Direction::Out => self.out_enabled[index],
        }
    }

    /// Enables or disables direction `dir` of endpoint `index`. Enabling
    /// returns the FIFO size and isochronous setting to program.
    pub fn endpoint_set_enabled(&mut self, index: usize, dir: Direction, enabled: bool) -> (r:
        Option<EndpointSetup>)
        requires
            old(self).wf(),
            index < EP_COUNT,
        ensures
            final(self).wf(),
            final(self)@.ep_confs == old(self)@.ep_confs,
            final(self)@.inited == old(self)@.inited,
            dir == Direction::In ==> final(self)@.in_enabled == old(self)@.in_enabled.update(
                index as int,
                enabled,
            ) && final(self)@.out_enabled == old(self)@.out_enabled,
            dir == Direction::Out ==> final(self)@.out_enabled == old(self)@.out_enabled.update(
                index as int,
                enabled,
            ) && final(self)@.in_enabled == old(self)@.in_enabled,
            !enabled ==> r is None,
            enabled ==> r == Some(
                EndpointSetup {
                    max_fifo_size_btyes: if dir == Direction::In {
                        old(self)@.ep_confs[index as int].in_max_fifo_size_btyes
                    } else {
                        old(self)@.ep_confs[index as int].out_max_fifo_size_btyes
                    },
                    iso: old(self)@.ep_confs[index as int].ep_type == EndpointType::Isochronous,
                },
            ),
    {
        match dir {
            Direction::In => self.in_enabled.set(index, enabled),
            Direction::Out => self.out_enabled.set(index, enabled),
        }
        if !enabled {
            return None;
        }
        let conf = self.ep_confs[index];
        let max_fifo_size_btyes = match dir {
            Direction::In => conf.in_max_fifo_size_btyes,
            Direction::Out => conf.out_max_fifo_size_btyes,
        };
        Some(
            EndpointSetup {
                max_fifo_size_btyes,
                iso: same_type(conf.ep_type, EndpointType::Isochronous),
            },
        )
    }
}

/// The control pipe on endpoint 0.
pub struct ControlPipe {
    pub max_packet_size: u16,
    pub ep_in: Endpoint,
    pub ep_out: Endpoint,
}

impl ControlPipe {
    pub fn max_packet_size(&self) -> (r: usize)
        ensures
            r == self.max_packet_size,
    {
        self.max_packet_size as usize
    }

    /// Whether a received packet of `count` bytes is a setup packet; any
    /// other length is dropped and the next packet awaited.
    pub fn is_setup_packet(count: u16) -> (r: bool)
        ensures
            r == (count == SETUP_PACKET_LEN),
    {
        count == SETUP_PACKET_LEN
    }

    /// The outcome of a data stage OUT packet of `count` bytes into a
    /// buffer of `buf_len` bytes: the count, or `BufferOverflow` when it
    /// exceeds the buffer or the endpoint's maximum packet size.
    pub fn data_out(&self, count: u16, buf_len: usize) -> (r: Result<usize, EndpointError>)
        ensures
            count > buf_len || count > self.ep_out.info.max_packet_size ==> r == Err::<
                usize,
                EndpointError,
            >(EndpointError::BufferOverflow),
            count <= buf_len && count <= self.ep_out.info.max_packet_size ==> r == Ok::<
                usize,
                EndpointError,
            >(count as usize),
    {
        if count as usize > buf_len {
            return Err(EndpointError::BufferOverflow);
        }
        if count > self.ep_out.info.max_packet_size {
            return Err(EndpointError::BufferOverflow);
        }
        Ok(count as usize)
    }

    /// Whether a data stage IN packet of `len` bytes may be sent:
    /// `BufferOverflow` when it exceeds the endpoint's maximum packet size.
    pub fn data_in(&self, len: usize) -> (r: Result<(), EndpointError>)
        ensures
            len > self.ep_in.info.max_packet_size ==> r == Err::<(), EndpointError>(
                EndpointError::BufferOverflow,
            ),
            len <= self.ep_in.info.max_packet_size ==> r is Ok,
    {
        if len > self.ep_in.info.max_packet_size as usize {
            return Err(EndpointError::BufferOverflow);
        }
        Ok(())
    }
}

impl Endpoint {
    pub fn info(&self) -> (r: &EndpointInfo)
        ensures
            *r == self.info,
    {
        &self.info
    }

    /// The outcome of reading a packet of `count` bytes into a buffer of
    /// `buf_len` bytes: the number of bytes to drain from the FIFO, or
    /// `BufferOverflow` when the packet does not fit.
    pub fn read(&self, count: u16, buf_len: usize) -> (r: Result<usize, EndpointError>)
        ensures
            count > buf_len ==> r == Err::<usize, EndpointError>(EndpointError::BufferOverflow),
            count <= buf_len ==> r == Ok::<usize, EndpointError>(count as usize),
    {
        if count as usize > buf_len {
            return Err(EndpointError::BufferOverflow);
        }
        Ok(count as usize)
    }

    /// Whether a packet of `len` bytes may be written:
    /// `BufferOverflow` when it exceeds the maximum packet size.
    pub fn write(&self, len: usize) -> (r: Result<(), EndpointError>)
        ensures
            len > self.info.max_packet_size ==> r == Err::<(), EndpointError>(
                EndpointError::BufferOverflow,
            ),
            len <= self.info.max_packet_size ==> r is Ok,
    {
        if len > self.info.max_packet_size as usize {
            return Err(EndpointError::BufferOverflow);
        }
        Ok(())
    }
}

/// Status read from the controller at one interrupt: the bus events, and
/// one bit per endpoint (bit `i` for endpoint `i`) of the IN and OUT event
/// registers. Endpoint 0 reports both directions in bit 0 of `int_in`.
#[derive(Clone, Copy, Debug, PartialEq, Eq, Structural)]
pub struct UsbInterrupt {
    pub reset: bool,
    pub suspend: bool,
    pub resume: bool,
    pub int_in: u8,
    pub int_out: u8,
}

/// Which wakers an interrupt wakes.
pub struct WakeSet {
    pub bus: bool,
    pub ep_in: Vec<bool>,
    pub ep_out: Vec<bool>,
}

pub open spec fn bit(v: u8, i: int) -> bool {
    (v >> (i as u8)) & 1u8 == 1u8
}

/// Interrupt handler of the controller.
pub struct InterruptHandler {}

impl InterruptHandler {
    /// Latches the bus events into `flags` and tells which wakers to wake:
    /// the bus waker on any bus event, both wakers of endpoint 0 on its
    /// event, and the waker of each direction of every other endpoint on
    /// that direction's event.
    pub fn on_interrupt(status: UsbInterrupt, flags: &mut IrqFlags) -> (r: WakeSet)
        ensures
            final(flags).reset == (old(flags).reset || status.reset),
            final(flags).suspend == (old(flags).suspend || status.suspend),
            final(flags).resume == (old(flags).resume || status.resume),
            r.bus == (status.reset || status.suspend || status.resume),
            r.ep_in@.len() == EP_COUNT,
            r.ep_out@.len() == EP_COUNT,
            r.ep_in@[0] == bit(status.int_in, 0),
            r.ep_out@[0] == bit(status.int_in, 0),
            forall|i: int| 1 <= i < EP_COUNT ==> #[trigger] r.ep_in@[i] == bit(status.int_in, i),
            forall|i: int| 1 <= i < EP_COUNT ==> #[trigger] r.ep_out@[i] == bit(status.int_out, i),
    {
        if status.reset {
            flags.reset = true;
        }
        if status.suspend {
            flags.suspend = true;
        }
        if status.resume {
            flags.resume = true;
        }
        let ep0 = (status.int_in >> 0u8) & 1u8 == 1u8;
        let mut ep_in: Vec<bool> = vec![ep0];
        let mut ep_out: Vec<bool> = vec![ep0];
        let mut i: usize = 1;
        while i < EP_COUNT
            invariant
                1 <= i <= EP_COUNT,
                ep_in@.len() == i,
                ep_out@.len() == i,
                ep_in@[0] == bit(status.int_in, 0),
                ep_out@[0] == bit(status.int_in, 0),
                forall|j: int| 1 <= j < i ==> #[trigger] ep_in@[j] == bit(status.int_in, j),
                forall|j: int| 1 <= j < i ==> #[trigger] ep_out@[j] == bit(status.int_out, j),
            decreases EP_COUNT - i,
        {
            ep_in.push((status.int_in >> (i as u8)) & 1u8 == 1u8);
            ep_out.push((status.int_out >> (i as u8)) & 1u8 == 1u8);
            i = i + 1;
        }
        WakeSet { bus: status.reset || status.suspend || status.resume, ep_in, ep_out }
    }
}

} // verus!
