//! The virtual output device: its capability plan and its setup
//! descriptor.
//!
//! Creation declares the event classes the device may emit, enables the
//! key, button and relative-motion codes, and submits a descriptor with
//! a fixed-size name buffer and a fabricated but stable identity. The
//! display name must be non-empty and fit the buffer; a bad name is a
//! configuration error that aborts the startup.

use vstd::prelude::*;

verus! {

/// Event class tag for synchronization markers.
pub const EV_SYN: i32 = 0;

/// Event class tag for key and button events.
pub const EV_KEY: i32 = 1;

/// Event class tag for relative motion.
pub const EV_REL: i32 = 2;

/// Event class tag for miscellaneous events.
pub const EV_MSC: i32 = 4;

/// Fabricated bus identity given to the virtual device.
pub const BUS_USB: u16 = 3;

/// First pointer-button code.
pub const BTN_LEFT: i32 = 0x110;

/// Last pointer-button code the device enables.
pub const BTN_TASK: i32 = 0x117;

/// Number of ordinary key codes the device enables (codes 0 up to,
/// excluding, this bound).
pub const KEY_CODE_SPAN: i32 = 255;

/// Number of relative-motion codes the device enables.
pub const REL_CODE_SPAN: i32 = 15;

/// The one extra key code enabled after the ranges, needed by some
/// downstream consumers to accept synthesized key events as genuine.
pub const SCAN_KEY_CODE: i32 = 57;

/// Size of the fixed name buffer of the setup descriptor, and so the
/// largest allowed display-name length in bytes.
pub const NAME_CAPACITY: usize = 80;

/// One capability-declaration request issued while configuring the
/// virtual device.
#[derive(Clone, Copy, Debug, PartialEq, Eq, Structural)]
pub enum CapabilityRequest {
    /// Declare an event class the device may emit.
    EventClass(i32),
    /// Enable one key or button code.
    KeyCode(i32),
    /// Enable one relative-motion code.
    RelativeAxis(i32),
}

/// The full capability plan, in the order the requests are issued:
/// the four event classes, every ordinary key code, the pointer-button
/// range, every relative-motion code, and the designated scan key code.
pub open spec fn capability_plan() -> Seq<CapabilityRequest> {
    seq![
        CapabilityRequest::EventClass(EV_SYN),
        CapabilityRequest::EventClass(EV_MSC),
        CapabilityRequest::EventClass(EV_KEY),
        CapabilityRequest::EventClass(EV_REL),
    ] + Seq::new(KEY_CODE_SPAN as nat, |i: int| CapabilityRequest::KeyCode(i as i32)) + Seq::new(
        (BTN_TASK - BTN_LEFT + 1) as nat,
        |i: int| CapabilityRequest::KeyCode((BTN_LEFT + i) as i32),
    ) + Seq::new(REL_CODE_SPAN as nat, |i: int| CapabilityRequest::RelativeAxis(i as i32))
        + seq![CapabilityRequest::KeyCode(SCAN_KEY_CODE)]
}

/// Builds the capability requests of the plan, in order.
pub fn capability_requests() -> (r: Vec<CapabilityRequest>)
    ensures
        r@ == capability_plan(),
{
    let mut r: Vec<CapabilityRequest> = Vec::new();
    r.push(CapabilityRequest::EventClass(EV_SYN));
    r.push(CapabilityRequest::EventClass(EV_MSC));
    r.push(CapabilityRequest::EventClass(EV_KEY));
    r.push(CapabilityRequest::EventClass(EV_REL));
    let mut k: i32 = 0;
    while k < KEY_CODE_SPAN
        invariant
            0 <= k <= KEY_CODE_SPAN,
            r@.len() == 4 + k,
            r@[0] == CapabilityRequest::EventClass(EV_SYN),
            r@[1] == CapabilityRequest::EventClass(EV_MSC),
            r@[2] == CapabilityRequest::EventClass(EV_KEY),
            r@[3] == CapabilityRequest::EventClass(EV_REL),
            forall|j: int| 4 <= j < 4 + k ==> r@[j] == CapabilityRequest::KeyCode((j - 4) as i32),
        decreases KEY_CODE_SPAN - k,
    {
        r.push(CapabilityRequest::KeyCode(k));
        k = k + 1;
    }
    let mut b: i32 = BTN_LEFT;
    while b <= BTN_TASK
        invariant
            BTN_LEFT <= b <= BTN_TASK + 1,
            r@.len() == 4 + KEY_CODE_SPAN + (b - BTN_LEFT),
            r@[0] == CapabilityRequest::EventClass(EV_SYN),
            r@[1] == CapabilityRequest::EventClass(EV_MSC),
            r@[2] == CapabilityRequest::EventClass(EV_KEY),
            r@[3] == CapabilityRequest::EventClass(EV_REL),
            forall|j: int|
                4 <= j < 4 + KEY_CODE_SPAN ==> r@[j] == CapabilityRequest::KeyCode((j - 4) as i32),
            forall|j: int|
                4 + KEY_CODE_SPAN <= j < 4 + KEY_CODE_SPAN + (b - BTN_LEFT) ==> r@[j]
                    == CapabilityRequest::KeyCode((BTN_LEFT + j - 4 - KEY_CODE_SPAN) as i32),
        decreases BTN_TASK + 1 - b,
    {
        r.push(CapabilityRequest::KeyCode(b));
        b = b + 1;
    }
    let mut a: i32 = 0;
    while a < REL_CODE_SPAN
        invariant
            0 <= a <= REL_CODE_SPAN,
            r@.len() == 4 + KEY_CODE_SPAN + (BTN_TASK - BTN_LEFT + 1) + a,
            r@[0] == CapabilityRequest::EventClass(EV_SYN),
            r@[1] == CapabilityRequest::EventClass(EV_MSC),
            r@[2] == CapabilityRequest::EventClass(EV_KEY),
            r@[3] == CapabilityRequest::EventClass(EV_REL),
            forall|j: int|
                4 <= j < 4 + KEY_CODE_SPAN ==> r@[j] == CapabilityRequest::KeyCode((j - 4) as i32),
            forall|j: int|
                4 + KEY_CODE_SPAN <= j < 4 + KEY_CODE_SPAN + (BTN_TASK - BTN_LEFT + 1) ==> r@[j]
                    == CapabilityRequest::KeyCode((BTN_LEFT + j - 4 - KEY_CODE_SPAN) as i32),
            forall|j: int|
                4 + KEY_CODE_SPAN + (BTN_TASK - BTN_LEFT + 1) <= j < 4 + KEY_CODE_SPAN + (BTN_TASK
                    - BTN_LEFT + 1) + a ==> r@[j] == CapabilityRequest::RelativeAxis(
                    (j - 4 - KEY_CODE_SPAN - (BTN_TASK - BTN_LEFT + 1)) as i32,
                ),
        decreases REL_CODE_SPAN - a,
    {
        r.push(CapabilityRequest::RelativeAxis(a));
        a = a + 1;
    }
    r.push(CapabilityRequest::KeyCode(SCAN_KEY_CODE));
    proof {
        assert(r@ =~= capability_plan());
    }
    r
}

/// Why a display name is rejected.
#[derive(Clone, Copy, Debug, PartialEq, Eq, Structural)]
pub enum NameError {
    /// The name is empty.
    Empty,
    /// The name does not fit the fixed name buffer.
    TooLong,
}

/// Checks the display name: it must be non-empty and fit the name
/// buffer. A bad name is fatal at startup.
pub fn validate_name(name: &Vec<u8>) -> (r: Result<(), NameError>)
    ensures
        r is Ok <==> 1 <= name@.len() <= NAME_CAPACITY,
        r == Err::<(), NameError>(NameError::Empty) <==> name@.len() == 0,
        r == Err::<(), NameError>(NameError::TooLong) <==> name@.len() > NAME_CAPACITY,
{
    if name.len() == 0 {
        Err(NameError::Empty)
    } else if name.len() > NAME_CAPACITY {
        Err(NameError::TooLong)
    } else {
        Ok(())
    }
}

/// The fixed-size name buffer: the name's bytes, zero-padded.
pub open spec fn padded_name(name: Seq<u8>) -> Seq<u8>
    recommends
        name.len() <= NAME_CAPACITY,
{
    Seq::new(
        NAME_CAPACITY as nat,
        |i: int| if i < name.len() {
            name[i]
        } else {
            0u8
        },
    )
}

/// Fills the fixed-size name buffer with the name, zero-padded.
pub fn name_buffer(name: &Vec<u8>) -> (r: Vec<u8>)
    requires
        name@.len() <= NAME_CAPACITY,
    ensures
        r@ == padded_name(name@),
{
    let mut r: Vec<u8> = Vec::new();
    let mut i: usize = 0;
    while i < name.len()
        invariant
            i <= name@.len() <= NAME_CAPACITY,
            r@.len() == i,
            forall|j: int| 0 <= j < i ==> r@[j] == name@[j],
        decreases name@.len() - i,
    {
        r.push(name[i]);
        i = i + 1;
    }
    while i < NAME_CAPACITY
        invariant
            name@.len() <= i <= NAME_CAPACITY,
            r@.len() == i,
            forall|j: int| 0 <= j < name@.len() ==> r@[j] == name@[j],
            forall|j: int| name@.len() <= j < i ==> r@[j] == 0u8,
        decreases NAME_CAPACITY - i,
    {
        r.push(0u8);
        i = i + 1;
    }
    proof {
        assert(r@ =~= padded_name(name@));
    }
    r
}

/// The descriptor submitted before the create request: the fabricated
/// identity and the padded name buffer.
#[derive(Debug)]
pub struct DeviceSetup {
    pub bus_type: u16,
    pub vendor: u16,
    pub product: u16,
    pub version: u16,
    pub name: Vec<u8>,
}

/// Builds the setup descriptor for a display name, or rejects the name.
/// Success comes exactly on a non-empty name that fits the buffer; the
/// descriptor then carries the generic bus type, the placeholder
/// identity numbers and the zero-padded name.
pub fn device_setup(name: &Vec<u8>) -> (r: Result<DeviceSetup, NameError>)
    ensures
        r is Ok <==> 1 <= name@.len() <= NAME_CAPACITY,
        r matches Ok(d) ==> {
            &&& d.bus_type == BUS_USB
            &&& d.vendor == 1
            &&& d.product == 1
            &&& d.version == 1
            &&& d.name@ == padded_name(name@)
        },
        r == Err::<DeviceSetup, NameError>(NameError::Empty) <==> name@.len() == 0,
        r == Err::<DeviceSetup, NameError>(NameError::TooLong) <==> name@.len() > NAME_CAPACITY,
{
    match validate_name(name) {
        Ok(()) => Ok(
            DeviceSetup {
                bus_type: BUS_USB,
                vendor: 1,
                product: 1,
                version: 1,
                name: name_buffer(name),
            },
        ),
        Err(e) => Err(e),
    }
}

} // verus!
