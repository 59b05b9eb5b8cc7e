//! Which USB interfaces the class drivers take.

use vstd::prelude::*;

verus! {

/// What a driver is registered for; what is `None` may be anything.
#[derive(Clone, Copy, Debug, PartialEq, Eq, Structural)]
pub struct UsbId {
    pub vid: Option<u16>,
    pub pid: Option<u16>,
    pub class: Option<u8>,
    pub subclass: Option<u8>,
    pub protocol: Option<u8>,
}

/// Why a driver or a device refuses.
#[derive(Clone, Copy, Debug, PartialEq, Eq, Structural)]
pub enum UsbError {
    NotSupported,
    InvalidParameter,
}

/// An endpoint of an interface.
#[derive(Clone, Copy, Debug, PartialEq, Eq, Structural)]
pub struct Endpoint {
    pub interrupt: bool,
    /// Towards the host.
    pub input: bool,
}

/// An interface that a driver looks at.
#[derive(Debug)]
pub struct Interface {
    pub class: u8,
    pub subclass: u8,
    pub protocol: u8,
    pub alternate_setting: u8,
    pub endpoints: Vec<Endpoint>,
}

pub const USB_CLASS_VIDEO: u8 = 0x0e;
pub const USB_SUBCLASS_VIDEO_CONTROL: u8 = 0x01;
pub const USB_SUBCLASS_VIDEO_STREAMING: u8 = 0x02;
pub const USB_CLASS_COMM: u8 = 0x02;
pub const USB_CDC_SUBCLASS_ACM: u8 = 0x02;
pub const USB_CLASS_VENDOR_SPECIFIC: u8 = 0xff;
pub const CH34X_VENDOR_ID: u16 = 0x1a86;
pub const CH34X_PRODUCT_ID_CH340: u16 = 0x7523;
pub const USB_SUBCLASS_CH34X: u8 = 0x01;
pub const USB_PROTOCOL_CH34X: u8 = 0x02;
pub const CP210X_VENDOR_ID: u16 = 0x10c4;
pub const CP210X_PRODUCT_ID_EA60: u16 = 0xea60;
pub const USB_SUBCLASS_CP210X: u8 = 0x00;
pub const USB_PROTOCOL_CP210X: u8 = 0x00;

/// Names of the drivers.
pub const UVCVIDEO_NAME: &'static str = "uvcvideo";
pub const CDC_ACM_NAME: &'static str = "cdc-acm";
pub const CH34X_NAME: &'static str = "ch34x";
pub const CP210X_NAME: &'static str = "cp210x";

/// The video driver is registered for control and streaming interfaces of any
/// camera.
#[verifier::allow_in_spec]
pub fn uvcvideo_ids() -> (ids: (UsbId, UsbId))
    returns
        (
            UsbId {
                vid: None,
                pid: None,
                class: Some(USB_CLASS_VIDEO),
                subclass: Some(USB_SUBCLASS_VIDEO_CONTROL),
                protocol: None,
            },
            UsbId {
                vid: None,
                pid: None,
                class: Some(USB_CLASS_VIDEO),
                subclass: Some(USB_SUBCLASS_VIDEO_STREAMING),
                protocol: None,
            },
        ),
{
    (
        UsbId {
            vid: None,
            pid: None,
            class: Some(USB_CLASS_VIDEO),
            subclass: Some(USB_SUBCLASS_VIDEO_CONTROL),
            protocol: None,
        },
        UsbId {
            vid: None,
            pid: None,
            class: Some(USB_CLASS_VIDEO),
            subclass: Some(USB_SUBCLASS_VIDEO_STREAMING),
            protocol: None,
        },
    )
}

/// The modem driver is registered for control interfaces of any modem.
#[verifier::allow_in_spec]
pub fn cdc_acm_id() -> (id: UsbId)
    returns
        (UsbId {
            vid: None,
            pid: None,
            class: Some(USB_CLASS_COMM),
            subclass: Some(USB_CDC_SUBCLASS_ACM),
            protocol: None,
        }),
{
    UsbId {
        vid: None,
        pid: None,
        class: Some(USB_CLASS_COMM),
        subclass: Some(USB_CDC_SUBCLASS_ACM),
        protocol: None,
    }
}

/// The CH340 adapter.
#[verifier::allow_in_spec]
pub fn ch34x_id() -> (id: UsbId)
    returns
        (UsbId {
            vid: Some(CH34X_VENDOR_ID),
            pid: Some(CH34X_PRODUCT_ID_CH340),
            class: Some(USB_CLASS_VENDOR_SPECIFIC),
            subclass: Some(USB_SUBCLASS_CH34X),
            protocol: Some(USB_PROTOCOL_CH34X),
        }),
{
    UsbId {
        vid: Some(CH34X_VENDOR_ID),
        pid: Some(CH34X_PRODUCT_ID_CH340),
        class: Some(USB_CLASS_VENDOR_SPECIFIC),
        subclass: Some(USB_SUBCLASS_CH34X),
        protocol: Some(USB_PROTOCOL_CH34X),
    }
}

/// The CP210x adapter.
#[verifier::allow_in_spec]
pub fn cp210x_id() -> (id: UsbId)
    returns
        (UsbId {
            vid: Some(CP210X_VENDOR_ID),
            pid: Some(CP210X_PRODUCT_ID_EA60),
            class: Some(USB_CLASS_VENDOR_SPECIFIC),
            subclass: Some(USB_SUBCLASS_CP210X),
            protocol: Some(USB_PROTOCOL_CP210X),
        }),
{
    UsbId {
        vid: Some(CP210X_VENDOR_ID),
        pid: Some(CP210X_PRODUCT_ID_EA60),
        class: Some(USB_CLASS_VENDOR_SPECIFIC),
        subclass: Some(USB_SUBCLASS_CP210X),
        protocol: Some(USB_PROTOCOL_CP210X),
    }
}

/// An interface is of the kind that an entry asks for.
pub open spec fn matches_id(id: UsbId, interface: Interface) -> bool {
    &&& id.class matches Some(class) ==> interface.class == class
    &&& id.subclass matches Some(subclass) ==> interface.subclass == subclass
    &&& id.protocol matches Some(protocol) ==> interface.protocol == protocol
}

/// Takes video control and streaming interfaces.
pub fn probe_uvcvideo(interface: &Interface) -> (result: Result<(), UsbError>)
    ensures
        result == (if matches_id(uvcvideo_ids().0, *interface) || matches_id(
            uvcvideo_ids().1,
            *interface,
        ) {
            Ok::<(), UsbError>(())
        } else {
            Err(UsbError::NotSupported)
        }),
{
    if interface.class != USB_CLASS_VIDEO || (interface.subclass != USB_SUBCLASS_VIDEO_CONTROL
        && interface.subclass != USB_SUBCLASS_VIDEO_STREAMING) {
        return Err(UsbError::NotSupported);
    }
    Ok(())
}

/// Takes the first setting of modem control interfaces with an interrupt
/// endpoint towards the host.
pub fn probe_cdc_acm(interface: &Interface) -> (result: Result<(), UsbError>)
    ensures
        result == (if interface.alternate_setting == 0 && matches_id(cdc_acm_id(), *interface) && (
        exists|i: int|
            0 <= i < interface.endpoints@.len() && (#[trigger] interface.endpoints@[i]).interrupt
                && interface.endpoints@[i].input) {
            Ok::<(), UsbError>(())
        } else {
            Err(UsbError::NotSupported)
        }),
{
    let is_control = interface.alternate_setting == 0 && interface.class == USB_CLASS_COMM
        && interface.subclass == USB_CDC_SUBCLASS_ACM;
    let mut has_interrupt_in = false;
    for i in 0..interface.endpoints.len()
        invariant
            has_interrupt_in == exists|j: int|
                0 <= j < i && (#[trigger] interface.endpoints@[j]).interrupt
                    && interface.endpoints@[j].input,
    {
        if interface.endpoints[i].interrupt && interface.endpoints[i].input {
            has_interrupt_in = true;
        }
    }
    if !is_control || !has_interrupt_in {
        return Err(UsbError::NotSupported);
    }
    Ok(())
}

/// Takes the first setting of a CH340 interface.
pub fn probe_ch34x(interface: &Interface) -> (result: Result<(), UsbError>)
    ensures
        result == (if interface.alternate_setting == 0 && matches_id(ch34x_id(), *interface) {
            Ok::<(), UsbError>(())
        } else {
            Err(UsbError::NotSupported)
        }),
{
    if interface.alternate_setting != 0 || interface.class != USB_CLASS_VENDOR_SPECIFIC
        || interface.subclass != USB_SUBCLASS_CH34X || interface.protocol != USB_PROTOCOL_CH34X {
        return Err(UsbError::NotSupported);
    }
    Ok(())
}

/// Takes the first setting of a CP210x interface.
pub fn probe_cp210x(interface: &Interface) -> (result: Result<(), UsbError>)
    ensures
        result == (if interface.alternate_setting == 0 && matches_id(cp210x_id(), *interface) {
            Ok::<(), UsbError>(())
        } else {
            Err(UsbError::NotSupported)
        }),
{
    if interface.alternate_setting != 0 || interface.class != USB_CLASS_VENDOR_SPECIFIC
        || interface.subclass != USB_SUBCLASS_CP210X || interface.protocol != USB_PROTOCOL_CP210X {
        return Err(UsbError::NotSupported);
    }
    Ok(())
}

/// No interface is taken by more than one driver.
pub proof fn law_drivers_do_not_compete(interface: Interface)
    ensures
        !(matches_id(ch34x_id(), interface) && matches_id(cp210x_id(), interface)),
        !(matches_id(cdc_acm_id(), interface) && (matches_id(ch34x_id(), interface) || matches_id(
            cp210x_id(),
            interface,
        ))),
        !(matches_id(uvcvideo_ids().0, interface) || matches_id(uvcvideo_ids().1, interface)) || !(
        matches_id(cdc_acm_id(), interface) || matches_id(ch34x_id(), interface) || matches_id(
            cp210x_id(),
            interface,
        )),
{
}

} // verus!
