//! Hardware-abstraction layer of an underwater vehicle simulator: the wire
//! protocol spoken with the vehicle-control process, the decisions of its
//! transport, and what the simulator does with the controller's messages.
//!
//! Floating-point values travel through this library as their IEEE-754 bit
//! patterns (`u32` for `f32`, `u64` for `f64`): the library frames, copies and
//! reorders them, and never does arithmetic on them.

pub mod control;
pub mod detections;
pub mod endian;
pub mod frustum_gizmo;
pub mod incoming;
pub mod laws;
pub mod message;
pub mod outgoing;
pub mod ownership;
pub mod sensors;
pub mod teleop;
pub mod transport;

pub use control::{
    change_of_coordinates, handle_cameras, handle_thrusters, update_cam_enabled,
    update_localization_estimate, CameraEnabled, LocalizationEstimate, ThrusterOf, ThrusterTarget,
};
pub use detections::Detections;
pub use endian::{push_be32, push_be64, push_words, read_be32, read_be64, read_words};
pub use frustum_gizmo::FrustumGizmoPlugin;
pub use incoming::{decode_incoming, IncomingMessage, IncomingView};
pub use laws::{
    lemma_incoming_round_trip, lemma_incoming_truncated, lemma_outgoing_round_trip,
    lemma_outgoing_truncated,
};
pub use message::{
    Dvl, FramingError, ImuINS, ImuPIMU, MLTargetData, MLTargetKind, MessageKind, SensorMessage,
};
pub use outgoing::{decode_outgoing, Image, OutgoingMessage, OutgoingView};
pub use ownership::{lemma_thrusters_agree, ThrusterTable, Thrusters};
pub use sensors::{
    depth_from_height, imu_dtheta, send_sensors, zero_or_one, Imu, SensorError, SensorKind,
};
pub use teleop::{teleop_command, TeleopKeys, TeleopState};
pub use transport::{
    begin_send, dbg_send_count, lemma_send_counted_once, receiver_step, send_step,
    ReceiverAction, ReceiverEvent, ReceiverPhase, SendAction, SendCounters, SendEvent, SendPhase,
    CONNECT_RETRY_DELAY_MS, EOF_RECONNECT_DELAY_MS, SEND_REPORT_TICKS, SEND_TIMEOUT_MS,
};
