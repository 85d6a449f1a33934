//! The broadcasting protocol: little-endian messages, one per datagram.

pub mod event;
pub mod data;
pub mod debugger;
pub mod entrylist;
pub mod float;
pub mod float_product;
pub mod float_ratio;
pub mod float_sum;
pub mod framed;
pub mod lapinfo;
pub mod list;
pub mod message;
pub mod protocol;
pub mod realtime_car_update;
pub mod realtime_update;
pub mod registration;
pub mod track_data;
pub mod wire;

pub use event::BroadcastingEvent;
pub use debugger::BroadcastDebugger;
pub use data::{
    BroadcastingCarEventType, CarLocation, DriverCategory, Nationality, RaceSessionType,
    SessionPhase,
};
pub use entrylist::{CarInfo, Driver, EntryList};
pub use float::Float32;
pub use framed::{BroadcastCodec, FramedError};
pub use lapinfo::{read_lap, LapInfo, LapType};
pub use message::{
    disconnect, BroadcastInboundMessage, BroadcastOutboundMessage, InboundMessageTypes,
    OutboundMessageTypes, RequestEntryList, RequestTrackData,
};
pub use protocol::{BroadcastNetworkProtocolInbound, BroadcastNetworkProtocolOutbound};
pub use realtime_car_update::RealtimeCarUpdate;
pub use realtime_update::RealtimeUpdate;
pub use registration::{RegisterConnection, RegistrationResult};
pub use track_data::{CameraSet, TrackData};
pub use wire::{read_string, write_string, ParseError};
