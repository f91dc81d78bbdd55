//! WebSocket-to-RDP gateway core: RDCleanPath framing, the handshake broker
//! and the duplex relay, with the data types of the admin surface.

mod error;
mod tpkt;

pub use error::{GatewayError, description_of};
pub use tpkt::{parse_tpkt_header, assemble_tpkt, tpkt_length_spec, tpkt_header_ok, TPKT_VERSION, TPKT_HEADER_LEN};
mod pdu;
pub use pdu::{RdpRequest, ControlPdu, ControlView, certs_view, pdu_fields_of_der, request_of_der, response_der, certs_budget, DER_MAX_LEN, response_fits, general_error_der, bytes_view, control_der, decode_request, encode_response, encode_general_error};
mod broker;
pub use broker::{TlsPolicy, tls_hostname, reported_server_addr, Phase, Stage, ClientMessage, Event, Action, ActionView, Broker, BrokerView, first_colon_from, host_of, initial_view, failed, next, next_awaiting, next_x224};
mod session_laws;
pub use session_laws::{run, control_count, before_relay, consumed_upstream, complete_tpkt, law_at_most_one_control_pdu, law_response_carries_upstream_frame, law_prerelay_failure_reports_general_error, law_relay_end_closes_both, only_general_errors, law_prerelay_failure_sends_general_error};
mod relay;
pub use relay::{RELAY_BUFFER_SIZE, UplinkAction, UplinkView, UplinkEvent, uplink_next, Uplink, UpstreamRead, DownlinkEvent, DownlinkAction, DownlinkView, downlink_next, Downlink};
mod relay_laws;
pub use relay_laws::{uplink_run, upstream_writes, inbound_payload, uplink_finishes, downlink_run, sent_messages, upstream_reads, downlink_finishes, law_uplink_preserves_bytes, law_downlink_preserves_reads};
mod text;
pub use text::{occurs_in, contains_str, white_space, str_eq, blank, is_blank, strip_prefix};
mod users;
pub use users::{User, UserRow, CreateUserRequest, UpdateUserRequest, NewUser, ApiError, status_of, message_of, admin_role, user_role, valid_role, is_valid_role, require_admin, requested_role, validate_new_user, validate_update, check_deletable, deletion_outcome, unique_marker, creation_error};
mod clock;
pub use clock::{Utc, DateTime, Duration, reading_to_secs};
mod auth;
pub use auth::{Claims, LoginRequest, LoginResponse, ChangePasswordRequest, TOKEN_LIFETIME_HOURS, bcrypt_check, token_expiry, check_outcome, password_outcome, authenticate, verify_current_password, bearer_prefix, bearer_token};
