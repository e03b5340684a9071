//! TRB type tags (xHCI 6.4.6, table 6-91).

use vstd::prelude::*;
use vstd::std_specs::convert::FromSpecImpl;

verus! {

/// The type of a TRB, as held in bits 15:10 of its control word.
///
/// Types 9 to 25 are commands (command ring), 32 to 39 are events (event
/// ring); the others belong to transfer rings, but for `Link`, which closes a
/// segment of a command or transfer ring.
#[derive(Debug, Clone, Copy, PartialEq, Eq, Structural)]
pub enum XhciTrbType {
    /// Reserved; allowed on no ring. Tag 0.
    Reserved,
    /// Normal transfer; transfer rings. Tag 1.
    Normal,
    /// Setup stage of a control transfer; transfer rings. Tag 2.
    SetupStage,
    /// Data stage of a control transfer; transfer rings. Tag 3.
    DataStage,
    /// Status stage of a control transfer; transfer rings. Tag 4.
    StatusStage,
    /// Isochronous transfer; transfer rings. Tag 5.
    Isoch,
    /// Link to the next ring segment; command and transfer rings. Tag 6.
    Link,
    /// Event data; transfer rings. Tag 7.
    EventData,
    /// No-op transfer; transfer rings. Tag 8.
    Noop,
    /// Enable Slot command. Tag 9.
    EnableSlotCmd,
    /// Disable Slot command. Tag 10.
    DisableSlotCmd,
    /// Address Device command. Tag 11.
    AddressDeviceCmd,
    /// Configure Endpoint command. Tag 12.
    ConfigureEndpointCmd,
    /// Evaluate Context command. Tag 13.
    EvaluateContextCmd,
    /// Reset Endpoint command. Tag 14.
    ResetEndpointCmd,
    /// Stop Endpoint command. Tag 15.
    StopEndpointCmd,
    /// Set TR Dequeue Pointer command. Tag 16.
    SetTrDequeuePtrCmd,
    /// Reset Device command. Tag 17.
    ResetDeviceCmd,
    /// Force Event command (optional, virtualization only). Tag 18.
    ForceEventCmd,
    /// Negotiate Bandwidth command (optional). Tag 19.
    NegotiateBandwidthCmd,
    /// Set Latency Tolerance Value command (optional). Tag 20.
    SetLatencyToleranceValueCmd,
    /// Get Port Bandwidth command (optional). Tag 21.
    GetPortBandwidthCmd,
    /// Force Header command. Tag 22.
    ForceHeaderCmd,
    /// No-op command. Tag 23.
    NoopCmd,
    /// Get Extended Property command (optional). Tag 24.
    GetExtendedPropertyCmd,
    /// Set Extended Property command (optional). Tag 25.
    SetExtendedPropertyCmd,
    /// Transfer event. Tag 32.
    TransferEvent,
    /// Command completion event. Tag 33.
    CmdCompletionEvent,
    /// Port status change event. Tag 34.
    PortStatusChangeEvent,
    /// Bandwidth request event (optional). Tag 35.
    BandwidthRequestEvent,
    /// Doorbell event (optional, virtualization only). Tag 36.
    DoorbellEvent,
    /// Host controller event. Tag 37.
    HostControllerEvent,
    /// Device notification event. Tag 38.
    DeviceNotificationEvent,
    /// MFINDEX wrap event. Tag 39.
    MfindexWrapEvent,
}

impl XhciTrbType {
    /// The tag of this type.
    pub open spec fn spec_code(self) -> u8 {
        match self {
            XhciTrbType::Reserved => 0,
            XhciTrbType::Normal => 1,
            XhciTrbType::SetupStage => 2,
            XhciTrbType::DataStage => 3,
            XhciTrbType::StatusStage => 4,
            XhciTrbType::Isoch => 5,
            XhciTrbType::Link => 6,
            XhciTrbType::EventData => 7,
            XhciTrbType::Noop => 8,
            XhciTrbType::EnableSlotCmd => 9,
            XhciTrbType::DisableSlotCmd => 10,
            XhciTrbType::AddressDeviceCmd => 11,
            XhciTrbType::ConfigureEndpointCmd => 12,
            XhciTrbType::EvaluateContextCmd => 13,
            XhciTrbType::ResetEndpointCmd => 14,
            XhciTrbType::StopEndpointCmd => 15,
            XhciTrbType::SetTrDequeuePtrCmd => 16,
            XhciTrbType::ResetDeviceCmd => 17,
            XhciTrbType::ForceEventCmd => 18,
            XhciTrbType::NegotiateBandwidthCmd => 19,
            XhciTrbType::SetLatencyToleranceValueCmd => 20,
            XhciTrbType::GetPortBandwidthCmd => 21,
            XhciTrbType::ForceHeaderCmd => 22,
            XhciTrbType::NoopCmd => 23,
            XhciTrbType::GetExtendedPropertyCmd => 24,
            XhciTrbType::SetExtendedPropertyCmd => 25,
            XhciTrbType::TransferEvent => 32,
            XhciTrbType::CmdCompletionEvent => 33,
            XhciTrbType::PortStatusChangeEvent => 34,
            XhciTrbType::BandwidthRequestEvent => 35,
            XhciTrbType::DoorbellEvent => 36,
            XhciTrbType::HostControllerEvent => 37,
            XhciTrbType::DeviceNotificationEvent => 38,
            XhciTrbType::MfindexWrapEvent => 39,
        }
    }

    /// The tag of this type.
    #[verifier::when_used_as_spec(spec_code)]
    pub fn code(self) -> (r: u8)
        ensures
            r == self.spec_code(),
            r < 64,
            Self::spec_try_from_primitive(r) == Some(self),
    {
        match self {
            XhciTrbType::Reserved => 0,
            XhciTrbType::Normal => 1,
            XhciTrbType::SetupStage => 2,
            XhciTrbType::DataStage => 3,
            XhciTrbType::StatusStage => 4,
            XhciTrbType::Isoch => 5,
            XhciTrbType::Link => 6,
            XhciTrbType::EventData => 7,
            XhciTrbType::Noop => 8,
            XhciTrbType::EnableSlotCmd => 9,
            XhciTrbType::DisableSlotCmd => 10,
            XhciTrbType::AddressDeviceCmd => 11,
            XhciTrbType::ConfigureEndpointCmd => 12,
            XhciTrbType::EvaluateContextCmd => 13,
            XhciTrbType::ResetEndpointCmd => 14,
            XhciTrbType::StopEndpointCmd => 15,
            XhciTrbType::SetTrDequeuePtrCmd => 16,
            XhciTrbType::ResetDeviceCmd => 17,
            XhciTrbType::ForceEventCmd => 18,
            XhciTrbType::NegotiateBandwidthCmd => 19,
            XhciTrbType::SetLatencyToleranceValueCmd => 20,
            XhciTrbType::GetPortBandwidthCmd => 21,
            XhciTrbType::ForceHeaderCmd => 22,
            XhciTrbType::NoopCmd => 23,
            XhciTrbType::GetExtendedPropertyCmd => 24,
            XhciTrbType::SetExtendedPropertyCmd => 25,
            XhciTrbType::TransferEvent => 32,
            XhciTrbType::CmdCompletionEvent => 33,
            XhciTrbType::PortStatusChangeEvent => 34,
            XhciTrbType::BandwidthRequestEvent => 35,
            XhciTrbType::DoorbellEvent => 36,
            XhciTrbType::HostControllerEvent => 37,
            XhciTrbType::DeviceNotificationEvent => 38,
            XhciTrbType::MfindexWrapEvent => 39,
        }
    }

    /// The type with tag `number`, if there is one.
    pub open spec fn spec_try_from_primitive(number: u8) -> Option<XhciTrbType> {
        if number == 0 {
            Some(XhciTrbType::Reserved)
        } else if number == 1 {
            Some(XhciTrbType::Normal)
        } else if number == 2 {
            Some(XhciTrbType::SetupStage)
        } else if number == 3 {
            Some(XhciTrbType::DataStage)
        } else if number == 4 {
            Some(XhciTrbType::StatusStage)
        } else if number == 5 {
            Some(XhciTrbType::Isoch)
        } else if number == 6 {
            Some(XhciTrbType::Link)
        } else if number == 7 {
            Some(XhciTrbType::EventData)
        } else if number == 8 {
            Some(XhciTrbType::Noop)
        } else if number == 9 {
            Some(XhciTrbType::EnableSlotCmd)
        } else if number == 10 {
            Some(XhciTrbType::DisableSlotCmd)
        } else if number == 11 {
            Some(XhciTrbType::AddressDeviceCmd)
        } else if number == 12 {
            Some(XhciTrbType::ConfigureEndpointCmd)
        } else if number == 13 {
            Some(XhciTrbType::EvaluateContextCmd)
        } else if number == 14 {
            Some(XhciTrbType::ResetEndpointCmd)
        } else if number == 15 {
            Some(XhciTrbType::StopEndpointCmd)
        } else if number == 16 {
            Some(XhciTrbType::SetTrDequeuePtrCmd)
        } else if number == 17 {
            Some(XhciTrbType::ResetDeviceCmd)
        } else if number == 18 {
            Some(XhciTrbType::ForceEventCmd)
        } else if number == 19 {
            Some(XhciTrbType::NegotiateBandwidthCmd)
        } else if number == 20 {
            Some(XhciTrbType::SetLatencyToleranceValueCmd)
        } else if number == 21 {
            Some(XhciTrbType::GetPortBandwidthCmd)
        } else if number == 22 {
            Some(XhciTrbType::ForceHeaderCmd)
        } else if number == 23 {
            Some(XhciTrbType::NoopCmd)
        } else if number == 24 {
            Some(XhciTrbType::GetExtendedPropertyCmd)
        } else if number == 25 {
            Some(XhciTrbType::SetExtendedPropertyCmd)
        } else if number == 32 {
            Some(XhciTrbType::TransferEvent)
        } else if number == 33 {
            Some(XhciTrbType::CmdCompletionEvent)
        } else if number == 34 {
            Some(XhciTrbType::PortStatusChangeEvent)
        } else if number == 35 {
            Some(XhciTrbType::BandwidthRequestEvent)
        } else if number == 36 {
            Some(XhciTrbType::DoorbellEvent)
        } else if number == 37 {
            Some(XhciTrbType::HostControllerEvent)
        } else if number == 38 {
            Some(XhciTrbType::DeviceNotificationEvent)
        } else if number == 39 {
            Some(XhciTrbType::MfindexWrapEvent)
        } else {
            None
        }
    }

    /// The type with tag `number`; `None` where the tag is reserved (26 to
    /// 31, and 40 and above).
    pub fn try_from_primitive(number: u8) -> (r: Option<XhciTrbType>)
        ensures
            r == Self::spec_try_from_primitive(number),
            r matches Some(t) ==> t.spec_code() == number,
            r is None <==> (26 <= number < 32 || 40 <= number),
    {
        match number {
            0 => Some(XhciTrbType::Reserved),
            1 => Some(XhciTrbType::Normal),
            2 => Some(XhciTrbType::SetupStage),
            3 => Some(XhciTrbType::DataStage),
            4 => Some(XhciTrbType::StatusStage),
            5 => Some(XhciTrbType::Isoch),
            6 => Some(XhciTrbType::Link),
            7 => Some(XhciTrbType::EventData),
            8 => Some(XhciTrbType::Noop),
            9 => Some(XhciTrbType::EnableSlotCmd),
            10 => Some(XhciTrbType::DisableSlotCmd),
            11 => Some(XhciTrbType::AddressDeviceCmd),
            12 => Some(XhciTrbType::ConfigureEndpointCmd),
            13 => Some(XhciTrbType::EvaluateContextCmd),
            14 => Some(XhciTrbType::ResetEndpointCmd),
            15 => Some(XhciTrbType::StopEndpointCmd),
            16 => Some(XhciTrbType::SetTrDequeuePtrCmd),
            17 => Some(XhciTrbType::ResetDeviceCmd),
            18 => Some(XhciTrbType::ForceEventCmd),
            19 => Some(XhciTrbType::NegotiateBandwidthCmd),
            20 => Some(XhciTrbType::SetLatencyToleranceValueCmd),
            21 => Some(XhciTrbType::GetPortBandwidthCmd),
            22 => Some(XhciTrbType::ForceHeaderCmd),
            23 => Some(XhciTrbType::NoopCmd),
            24 => Some(XhciTrbType::GetExtendedPropertyCmd),
            25 => Some(XhciTrbType::SetExtendedPropertyCmd),
            32 => Some(XhciTrbType::TransferEvent),
            33 => Some(XhciTrbType::CmdCompletionEvent),
            34 => Some(XhciTrbType::PortStatusChangeEvent),
            35 => Some(XhciTrbType::BandwidthRequestEvent),
            36 => Some(XhciTrbType::DoorbellEvent),
            37 => Some(XhciTrbType::HostControllerEvent),
            38 => Some(XhciTrbType::DeviceNotificationEvent),
            39 => Some(XhciTrbType::MfindexWrapEvent),
            _ => None,
        }
    }
}

impl From<XhciTrbType> for u8 {
    fn from(value: XhciTrbType) -> (r: u8) {
        value.code()
    }
}

impl FromSpecImpl<XhciTrbType> for u8 {
    open spec fn obeys_from_spec() -> bool {
        true
    }

    open spec fn from_spec(value: XhciTrbType) -> u8 {
        value.spec_code()
    }
}

} // verus!
