use vstd::prelude::*;

verus! {

/// Which side of the channel between the interface and the transfer
/// engine a message travels.
#[derive(Clone, Copy, Debug, PartialEq, Eq, Structural)]
pub enum ChannelDirection {
    FrontToLib,
    LibToFront,
}

/// What the user decided about a transfer.
#[derive(Clone, Copy, Debug, PartialEq, Eq, Structural)]
pub enum ChannelAction {
    AcceptTransfer,
    RejectTransfer,
    CancelTransfer,
}

/// Whether a transfer comes in or goes out.
#[derive(Clone, Copy, Debug, PartialEq, Eq, Structural)]
pub enum TransferType {
    Inbound,
    Outbound,
}

/// The stage a transfer has reached.
#[derive(Clone, Copy, Debug, PartialEq, Eq, Structural)]
pub enum State {
    Initial,
    ReceivedConnectionRequest,
    SentUkeyServerInit,
    SentUkeyClientInit,
    SentUkeyClientFinish,
    SentPairedKeyEncryption,
    ReceivedUkeyClientFinish,
    SentConnectionResponse,
    SentPairedKeyResult,
    SentIntroduction,
    ReceivedPairedKeyResult,
    WaitingForUserConsent,
    ReceivingFiles,
    SendingFiles,
    Disconnected,
    Rejected,
    Cancelled,
    Finished,
}

/// How dangerous the files of a transfer look.
#[derive(Clone, Copy, Debug, PartialEq, Eq, Structural)]
pub enum TransferRiskLevel {
    NoRisk,
    Extension,
    High,
}

/// The kind of text a text transfer carries.
#[derive(Clone, Copy, Debug, PartialEq, Eq, Structural)]
pub enum TextPayloadType {
    Url,
    Text,
    Wifi,
}

/// The kind of device on the other end.
#[derive(Clone, Copy, Debug, PartialEq, Eq, Structural)]
pub enum DeviceType {
    Unknown,
    Phone,
    Tablet,
    Laptop,
}

impl DeviceType {
    /// The device type of a raw number: 1, 2 and 3 are phone, tablet and
    /// laptop, anything else is unknown.
    pub open spec fn of_raw(value: u8) -> DeviceType {
        if value == 1 {
            DeviceType::Phone
        } else if value == 2 {
            DeviceType::Tablet
        } else if value == 3 {
            DeviceType::Laptop
        } else {
            DeviceType::Unknown
        }
    }

    pub fn from_raw_value(value: u8) -> (t: DeviceType)
        ensures
            t == DeviceType::of_raw(value),
    {
        match value {
            1 => DeviceType::Phone,
            2 => DeviceType::Tablet,
            3 => DeviceType::Laptop,
            _ => DeviceType::Unknown,
        }
    }
}

/// The sender of an incoming transfer as it introduced itself.
#[derive(Clone, Debug)]
pub struct RemoteDeviceInfo {
    pub name: String,
    pub device_type: DeviceType,
}

/// What is known of a transfer's contents and progress.
#[derive(Clone, Debug)]
pub struct TransferMetadata {
    pub id: String,
    pub source: Option<RemoteDeviceInfo>,
    pub pin_code: Option<String>,
    pub destination: Option<String>,
    pub files: Option<Vec<String>>,
    pub text_type: Option<TextPayloadType>,
    pub text_description: Option<String>,
    pub text_payload: Option<String>,
    pub contains_dangerous_files: bool,
    pub risk_level: TransferRiskLevel,
    pub detected_content_label: Option<String>,
    pub detected_content_description: Option<String>,
    pub suspicious_file_name: Option<String>,
    pub total_bytes: u64,
    pub ack_bytes: u64,
}

/// A message on the channel between the interface and the transfer engine.
#[derive(Clone, Debug)]
pub struct ChannelMessage {
    pub id: String,
    pub direction: ChannelDirection,
    pub action: Option<ChannelAction>,
    pub rtype: Option<TransferType>,
    pub state: Option<State>,
    pub meta: Option<TransferMetadata>,
}

impl Default for ChannelDirection {
    /// Messages travel from the interface to the engine unless said otherwise.
    fn default() -> (d: ChannelDirection)
        ensures
            d == ChannelDirection::FrontToLib,
    {
        ChannelDirection::FrontToLib
    }
}

impl Default for TransferRiskLevel {
    /// A transfer carries no risk unless said otherwise.
    fn default() -> (r: TransferRiskLevel)
        ensures
            r == TransferRiskLevel::NoRisk,
    {
        TransferRiskLevel::NoRisk
    }
}

impl Default for TransferMetadata {
    /// Metadata that says nothing: empty id, no optional field, no risk,
    /// nothing transferred.
    fn default() -> (m: TransferMetadata)
        ensures
            m.id@.len() == 0,
            m.source is None,
            m.pin_code is None,
            m.destination is None,
            m.files is None,
            m.text_type is None,
            m.text_description is None,
            m.text_payload is None,
            !m.contains_dangerous_files,
            m.risk_level == TransferRiskLevel::NoRisk,
            m.detected_content_label is None,
            m.detected_content_description is None,
            m.suspicious_file_name is None,
            m.total_bytes == 0,
            m.ack_bytes == 0,
    {
        TransferMetadata {
            id: String::new(),
            source: None,
            pin_code: None,
            destination: None,
            files: None,
            text_type: None,
            text_description: None,
            text_payload: None,
            contains_dangerous_files: false,
            risk_level: TransferRiskLevel::NoRisk,
            detected_content_label: None,
            detected_content_description: None,
            suspicious_file_name: None,
            total_bytes: 0,
            ack_bytes: 0,
        }
    }
}

impl Default for ChannelMessage {
    /// A message with an empty id, from the interface, and no other field.
    fn default() -> (m: ChannelMessage)
        ensures
            m.id@.len() == 0,
            m.direction == ChannelDirection::FrontToLib,
            m.action is None,
            m.rtype is None,
            m.state is None,
            m.meta is None,
    {
        ChannelMessage {
            id: String::new(),
            direction: ChannelDirection::FrontToLib,
            action: None,
            rtype: None,
            state: None,
            meta: None,
        }
    }
}

} // verus!
