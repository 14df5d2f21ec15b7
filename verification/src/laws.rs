//! Properties of the agent that span several calls or several services.
use vstd::prelude::*;
use crate::events::{cancel_owed, cleared, AgentEvent, SlotCommand, TaskSlot};
use crate::networking::NetworkingErrorCodes;
use crate::heartbeat::{heartbeat_action, heartbeat_next, HeartbeatAction};
use crate::text::{all_ascii, ascii_lower, ascii_lower_char, ascii_upper, ascii_upper_char, starts_with_seq};
use crate::events::{lookup, StringTable};
use crate::networking::{spec_is_endpoint_interface, spec_needs_reconnect};
use crate::outside::spec_to_lowercase;
use crate::handshake::spec_endpoints;
use crate::grpc::{spec_code_from_name, GrpcCode};
use crate::messaging::{spec_operation, MessagingOperation, MessagingRequest};

verus! {

/// Stopping a background task twice is stopping it once; a stopped task is
/// never running; and a stop cancels a token exactly when one was ever
/// handed out.
pub proof fn stopping_is_idempotent(slot: TaskSlot)
    ensures
        cleared(cleared(slot)) == cleared(slot),
        cleared(slot) != TaskSlot::Running,
        (cancel_owed(slot) == SlotCommand::Cancel) == (slot != TaskSlot::Empty),
{
}

/// The heartbeat timer that a connection starts is the one that a later
/// disconnection or de-provisioning cancels; a second connection cancels
/// the first timer before it starts another, so at most one timer runs; and
/// no other event touches the timer.
pub proof fn heartbeat_timer_lifecycle(timer: TaskSlot, other: AgentEvent)
    requires
        !(other is MessagingConnected),
        !(other is MessagingDisconnected),
        !(other is Deprovisioned),
    ensures
        heartbeat_next(timer, AgentEvent::MessagingConnected) == TaskSlot::Running,
        heartbeat_action(heartbeat_next(timer, AgentEvent::MessagingConnected), AgentEvent::MessagingConnected)
            == (HeartbeatAction::StartTimer { cancel: SlotCommand::Cancel }),
        heartbeat_action(heartbeat_next(timer, AgentEvent::MessagingConnected), AgentEvent::MessagingDisconnected)
            == (HeartbeatAction::StopTimer { cancel: SlotCommand::Cancel }),
        heartbeat_action(heartbeat_next(timer, AgentEvent::MessagingConnected), AgentEvent::Deprovisioned)
            == (HeartbeatAction::StopTimer { cancel: SlotCommand::Cancel }),
        heartbeat_next(heartbeat_next(timer, AgentEvent::MessagingConnected), AgentEvent::MessagingDisconnected)
            == TaskSlot::Cancelled,
        heartbeat_next(timer, AgentEvent::Deprovisioned) != TaskSlot::Running,
        heartbeat_next(timer, other) == timer,
        heartbeat_action(timer, other) == HeartbeatAction::Ignore,
{
}

/// Folding the case of a status name forgets its case: the upper-case form
/// of its lower-case form is its upper-case form, upper-casing twice is
/// upper-casing once, and lower-casing keeps a name ASCII.
pub proof fn case_folding_forgets_case(s: Seq<char>)
    ensures
        ascii_upper(ascii_lower(s)) == ascii_upper(s),
        ascii_upper(ascii_upper(s)) == ascii_upper(s),
        all_ascii(s) ==> all_ascii(ascii_lower(s)),
        all_ascii(s) ==> all_ascii(ascii_upper(s)),
{
    assert(ascii_upper(ascii_lower(s)) =~= ascii_upper(s)) by {
        assert forall|i: int| 0 <= i < s.len() implies #[trigger] ascii_upper_char(ascii_lower_char(s[i]))
            == ascii_upper_char(s[i]) by {
            let c = s[i];
            if 'A' <= c && c <= 'Z' {
                assert(((((c as int) + 32) as char) as int) == (c as int) + 32);
            }
        }
    }
    assert(ascii_upper(ascii_upper(s)) =~= ascii_upper(s)) by {
        assert forall|i: int| 0 <= i < s.len() implies #[trigger] ascii_upper_char(ascii_upper_char(s[i]))
            == ascii_upper_char(s[i]) by {
            let c = s[i];
            if 'a' <= c && c <= 'z' {
                assert(((((c as int) - 32) as char) as int) == (c as int) - 32);
            }
        }
    }
    if all_ascii(s) {
        assert forall|i: int| 0 <= i < ascii_lower(s).len() implies (#[trigger] ascii_lower(s)[i] as int) < 128 by {
            let c = s[i];
            if 'A' <= c && c <= 'Z' {
                assert(((((c as int) + 32) as char) as int) == (c as int) + 32);
            }
        }
        assert forall|i: int| 0 <= i < ascii_upper(s).len() implies (#[trigger] ascii_upper(s)[i] as int) < 128 by {
            let c = s[i];
            if 'a' <= c && c <= 'z' {
                assert(((((c as int) - 32) as char) as int) == (c as int) - 32);
            }
        }
    }
}

/// What tells the networking error codes' names apart: the length, the
/// first character, and the seventh character from the end.
spec fn name_key(name: Seq<char>) -> (int, char, char) {
    (name.len() as int, name[0], name[name.len() - 7])
}

spec fn networking_code_key(c: NetworkingErrorCodes) -> (int, char, char) {
    match c {
        NetworkingErrorCodes::NetworkingError => (15, 'N', 'n'),
        NetworkingErrorCodes::ExtractMessagePayloadError => (26, 'E', 'a'),
        NetworkingErrorCodes::MachineSettingsProviderNameNotFoundError => (40, 'M', 'n'),
        NetworkingErrorCodes::ProviderMetadataPayloadCreateError => (34, 'P', 't'),
        NetworkingErrorCodes::MachineSettingsMachineIdNotFoundError => (37, 'M', 'n'),
        NetworkingErrorCodes::SystemArchNotFoundError => (23, 'S', 'n'),
        NetworkingErrorCodes::SystemOsNotFoundError => (21, 'S', 'n'),
        NetworkingErrorCodes::GetProviderConfigsError => (23, 'G', 'g'),
        NetworkingErrorCodes::MessagingClientConnectError => (27, 'M', 'c'),
        NetworkingErrorCodes::MessagingRequestProviderMetadataError => (37, 'M', 't'),
        NetworkingErrorCodes::MessagingRequestProviderConfigError => (35, 'M', 'i'),
        NetworkingErrorCodes::ProviderDirectoryCreateError => (28, 'P', 't'),
        NetworkingErrorCodes::ProviderDownloadError => (21, 'P', 'a'),
        NetworkingErrorCodes::ProviderFileCreateError => (23, 'P', 't'),
        NetworkingErrorCodes::ProviderFileWriteError => (22, 'P', 't'),
        NetworkingErrorCodes::ProviderFileExtractError => (24, 'P', 'c'),
        NetworkingErrorCodes::InvalidProviderFileType => (23, 'I', 'i'),
        NetworkingErrorCodes::ProviderBinariesSaveError => (25, 'P', 'v'),
        NetworkingErrorCodes::CertsValidateOrCreateError => (26, 'C', 't'),
        NetworkingErrorCodes::CertsDirectoryCreateError => (25, 'C', 't'),
        NetworkingErrorCodes::CertsGenerateError => (18, 'C', 't'),
        NetworkingErrorCodes::MachineSettingsEnrollmentUrlFoundError => (38, 'M', 'n'),
        NetworkingErrorCodes::CertReadFileError => (17, 'C', 'l'),
        NetworkingErrorCodes::SignCertError => (13, 'S', 'r'),
        NetworkingErrorCodes::SignCertDecodeError => (19, 'S', 'd'),
        NetworkingErrorCodes::SignCertConvertStringError => (26, 'S', 'n'),
        NetworkingErrorCodes::SignCertFileCreateError => (23, 'S', 't'),
        NetworkingErrorCodes::SignCertFileSaveError => (21, 'S', 'v'),
        NetworkingErrorCodes::CaCertDecodeError => (17, 'C', 'd'),
        NetworkingErrorCodes::CaCertConvertStringError => (24, 'C', 'n'),
        NetworkingErrorCodes::CaCertFileCreateError => (21, 'C', 't'),
        NetworkingErrorCodes::CaCertFileSaveError => (19, 'C', 'v'),
        NetworkingErrorCodes::NebulaBaseConfigParseError => (26, 'N', 's'),
        NetworkingErrorCodes::NebulaConfigDeSerializeError => (28, 'N', 'z'),
        NetworkingErrorCodes::NebulaConfigSerializeError => (26, 'N', 'z'),
        NetworkingErrorCodes::NebulaConfigFileCreateError => (27, 'N', 't'),
        NetworkingErrorCodes::NebulaConfigFileGenerateError => (29, 'N', 't'),
        NetworkingErrorCodes::NebulaStartError => (16, 'N', 'r'),
        NetworkingErrorCodes::SudoCheckFailed => (15, 'S', 'k'),
        NetworkingErrorCodes::CommandRunError => (15, 'C', 'u'),
        NetworkingErrorCodes::CertNotFoundError => (17, 'C', 'n'),
        NetworkingErrorCodes::KeyNotFoundError => (16, 'K', 'n'),
        NetworkingErrorCodes::CertValidityCheckError => (22, 'C', 'c'),
        NetworkingErrorCodes::CertExpiredError => (16, 'C', 'e'),
        NetworkingErrorCodes::CertVerificationCheckError => (26, 'C', 'c'),
        NetworkingErrorCodes::CertVerifyError => (15, 'C', 'f'),
        NetworkingErrorCodes::UnknownError => (12, 'U', 'w'),
        NetworkingErrorCodes::ChannelSendMessageError => (23, 'C', 'g'),
        NetworkingErrorCodes::ChannelReceiveMessageError => (26, 'C', 'g'),
        NetworkingErrorCodes::GenerateKeyPairError => (20, 'G', 'i'),
        NetworkingErrorCodes::SettingUpWireguardError => (23, 'S', 'r'),
        NetworkingErrorCodes::PullMessagesError => (17, 'P', 'e'),
        NetworkingErrorCodes::PayloadDeserializationError => (27, 'P', 'o'),
        NetworkingErrorCodes::MessageAcknowledgeError => (23, 'M', 'g'),
        NetworkingErrorCodes::ExtractMessageHeadersError => (26, 'E', 'r'),
        NetworkingErrorCodes::CreateConsumerError => (19, 'C', 'e'),
        NetworkingErrorCodes::NetworkingInitError => (19, 'N', 'i'),
    }
}

spec fn networking_code_of_key(k: (int, char, char)) -> NetworkingErrorCodes {
    if k == (15int, 'N', 'n') {
        NetworkingErrorCodes::NetworkingError
    } else if k == (26int, 'E', 'a') {
        NetworkingErrorCodes::ExtractMessagePayloadError
    } else if k == (40int, 'M', 'n') {
        NetworkingErrorCodes::MachineSettingsProviderNameNotFoundError
    } else if k == (34int, 'P', 't') {
        NetworkingErrorCodes::ProviderMetadataPayloadCreateError
    } else if k == (37int, 'M', 'n') {
        NetworkingErrorCodes::MachineSettingsMachineIdNotFoundError
    } else if k == (23int, 'S', 'n') {
        NetworkingErrorCodes::SystemArchNotFoundError
    } else if k == (21int, 'S', 'n') {
        NetworkingErrorCodes::SystemOsNotFoundError
    } else if k == (23int, 'G', 'g') {
        NetworkingErrorCodes::GetProviderConfigsError
    } else if k == (27int, 'M', 'c') {
        NetworkingErrorCodes::MessagingClientConnectError
    } else if k == (37int, 'M', 't') {
        NetworkingErrorCodes::MessagingRequestProviderMetadataError
    } else if k == (35int, 'M', 'i') {
        NetworkingErrorCodes::MessagingRequestProviderConfigError
    } else if k == (28int, 'P', 't') {
        NetworkingErrorCodes::ProviderDirectoryCreateError
    } else if k == (21int, 'P', 'a') {
        NetworkingErrorCodes::ProviderDownloadError
    } else if k == (23int, 'P', 't') {
        NetworkingErrorCodes::ProviderFileCreateError
    } else if k == (22int, 'P', 't') {
        NetworkingErrorCodes::ProviderFileWriteError
    } else if k == (24int, 'P', 'c') {
        NetworkingErrorCodes::ProviderFileExtractError
    } else if k == (23int, 'I', 'i') {
        NetworkingErrorCodes::InvalidProviderFileType
    } else if k == (25int, 'P', 'v') {
        NetworkingErrorCodes::ProviderBinariesSaveError
    } else if k == (26int, 'C', 't') {
        NetworkingErrorCodes::CertsValidateOrCreateError
    } else if k == (25int, 'C', 't') {
        NetworkingErrorCodes::CertsDirectoryCreateError
    } else if k == (18int, 'C', 't') {
        NetworkingErrorCodes::CertsGenerateError
    } else if k == (38int, 'M', 'n') {
        NetworkingErrorCodes::MachineSettingsEnrollmentUrlFoundError
    } else if k == (17int, 'C', 'l') {
        NetworkingErrorCodes::CertReadFileError
    } else if k == (13int, 'S', 'r') {
        NetworkingErrorCodes::SignCertError
    } else if k == (19int, 'S', 'd') {
        NetworkingErrorCodes::SignCertDecodeError
    } else if k == (26int, 'S', 'n') {
        NetworkingErrorCodes::SignCertConvertStringError
    } else if k == (23int, 'S', 't') {
        NetworkingErrorCodes::SignCertFileCreateError
    } else if k == (21int, 'S', 'v') {
        NetworkingErrorCodes::SignCertFileSaveError
    } else if k == (17int, 'C', 'd') {
        NetworkingErrorCodes::CaCertDecodeError
    } else if k == (24int, 'C', 'n') {
        NetworkingErrorCodes::CaCertConvertStringError
    } else if k == (21int, 'C', 't') {
        NetworkingErrorCodes::CaCertFileCreateError
    } else if k == (19int, 'C', 'v') {
        NetworkingErrorCodes::CaCertFileSaveError
    } else if k == (26int, 'N', 's') {
        NetworkingErrorCodes::NebulaBaseConfigParseError
    } else if k == (28int, 'N', 'z') {
        NetworkingErrorCodes::NebulaConfigDeSerializeError
    } else if k == (26int, 'N', 'z') {
        NetworkingErrorCodes::NebulaConfigSerializeError
    } else if k == (27int, 'N', 't') {
        NetworkingErrorCodes::NebulaConfigFileCreateError
    } else if k == (29int, 'N', 't') {
        NetworkingErrorCodes::NebulaConfigFileGenerateError
    } else if k == (16int, 'N', 'r') {
        NetworkingErrorCodes::NebulaStartError
    } else if k == (15int, 'S', 'k') {
        NetworkingErrorCodes::SudoCheckFailed
    } else if k == (15int, 'C', 'u') {
        NetworkingErrorCodes::CommandRunError
    } else if k == (17int, 'C', 'n') {
        NetworkingErrorCodes::CertNotFoundError
    } else if k == (16int, 'K', 'n') {
        NetworkingErrorCodes::KeyNotFoundError
    } else if k == (22int, 'C', 'c') {
        NetworkingErrorCodes::CertValidityCheckError
    } else if k == (16int, 'C', 'e') {
        NetworkingErrorCodes::CertExpiredError
    } else if k == (26int, 'C', 'c') {
        NetworkingErrorCodes::CertVerificationCheckError
    } else if k == (15int, 'C', 'f') {
        NetworkingErrorCodes::CertVerifyError
    } else if k == (12int, 'U', 'w') {
        NetworkingErrorCodes::UnknownError
    } else if k == (23int, 'C', 'g') {
        NetworkingErrorCodes::ChannelSendMessageError
    } else if k == (26int, 'C', 'g') {
        NetworkingErrorCodes::ChannelReceiveMessageError
    } else if k == (20int, 'G', 'i') {
        NetworkingErrorCodes::GenerateKeyPairError
    } else if k == (23int, 'S', 'r') {
        NetworkingErrorCodes::SettingUpWireguardError
    } else if k == (17int, 'P', 'e') {
        NetworkingErrorCodes::PullMessagesError
    } else if k == (27int, 'P', 'o') {
        NetworkingErrorCodes::PayloadDeserializationError
    } else if k == (23int, 'M', 'g') {
        NetworkingErrorCodes::MessageAcknowledgeError
    } else if k == (26int, 'E', 'r') {
        NetworkingErrorCodes::ExtractMessageHeadersError
    } else if k == (19int, 'C', 'e') {
        NetworkingErrorCodes::CreateConsumerError
    } else {
        NetworkingErrorCodes::NetworkingInitError
    }
}

proof fn lemma_networking_name_key(c: NetworkingErrorCodes)
    ensures
        name_key(c.spec_name()) == networking_code_key(c),
        networking_code_of_key(networking_code_key(c)) == c,
{
    match c {
        NetworkingErrorCodes::NetworkingError => reveal_strlit("NetworkingError"),
        NetworkingErrorCodes::ExtractMessagePayloadError => reveal_strlit("ExtractMessagePayloadError"),
        NetworkingErrorCodes::MachineSettingsProviderNameNotFoundError => reveal_strlit("MachineSettingsProviderNameNotFoundError"),
        NetworkingErrorCodes::ProviderMetadataPayloadCreateError => reveal_strlit("ProviderMetadataPayloadCreateError"),
        NetworkingErrorCodes::MachineSettingsMachineIdNotFoundError => reveal_strlit("MachineSettingsMachineIdNotFoundError"),
        NetworkingErrorCodes::SystemArchNotFoundError => reveal_strlit("SystemArchNotFoundError"),
        NetworkingErrorCodes::SystemOsNotFoundError => reveal_strlit("SystemOsNotFoundError"),
        NetworkingErrorCodes::GetProviderConfigsError => reveal_strlit("GetProviderConfigsError"),
        NetworkingErrorCodes::MessagingClientConnectError => reveal_strlit("MessagingClientConnectError"),
        NetworkingErrorCodes::MessagingRequestProviderMetadataError => reveal_strlit("MessagingRequestProviderMetadataError"),
        NetworkingErrorCodes::MessagingRequestProviderConfigError => reveal_strlit("MessagingRequestProviderConfigError"),
        NetworkingErrorCodes::ProviderDirectoryCreateError => reveal_strlit("ProviderDirectoryCreateError"),
        NetworkingErrorCodes::ProviderDownloadError => reveal_strlit("ProviderDownloadError"),
        NetworkingErrorCodes::ProviderFileCreateError => reveal_strlit("ProviderFileCreateError"),
        NetworkingErrorCodes::ProviderFileWriteError => reveal_strlit("ProviderFileWriteError"),
        NetworkingErrorCodes::ProviderFileExtractError => reveal_strlit("ProviderFileExtractError"),
        NetworkingErrorCodes::InvalidProviderFileType => reveal_strlit("InvalidProviderFileType"),
        NetworkingErrorCodes::ProviderBinariesSaveError => reveal_strlit("ProviderBinariesSaveError"),
        NetworkingErrorCodes::CertsValidateOrCreateError => reveal_strlit("CertsValidateOrCreateError"),
        NetworkingErrorCodes::CertsDirectoryCreateError => reveal_strlit("CertsDirectoryCreateError"),
        NetworkingErrorCodes::CertsGenerateError => reveal_strlit("CertsGenerateError"),
        NetworkingErrorCodes::MachineSettingsEnrollmentUrlFoundError => reveal_strlit("MachineSettingsEnrollmentUrlFoundError"),
        NetworkingErrorCodes::CertReadFileError => reveal_strlit("CertReadFileError"),
        NetworkingErrorCodes::SignCertError => reveal_strlit("SignCertError"),
        NetworkingErrorCodes::SignCertDecodeError => reveal_strlit("SignCertDecodeError"),
        NetworkingErrorCodes::SignCertConvertStringError => reveal_strlit("SignCertConvertStringError"),
        NetworkingErrorCodes::SignCertFileCreateError => reveal_strlit("SignCertFileCreateError"),
        NetworkingErrorCodes::SignCertFileSaveError => reveal_strlit("SignCertFileSaveError"),
        NetworkingErrorCodes::CaCertDecodeError => reveal_strlit("CaCertDecodeError"),
        NetworkingErrorCodes::CaCertConvertStringError => reveal_strlit("CaCertConvertStringError"),
        NetworkingErrorCodes::CaCertFileCreateError => reveal_strlit("CaCertFileCreateError"),
        NetworkingErrorCodes::CaCertFileSaveError => reveal_strlit("CaCertFileSaveError"),
        NetworkingErrorCodes::NebulaBaseConfigParseError => reveal_strlit("NebulaBaseConfigParseError"),
        NetworkingErrorCodes::NebulaConfigDeSerializeError => reveal_strlit("NebulaConfigDeSerializeError"),
        NetworkingErrorCodes::NebulaConfigSerializeError => reveal_strlit("NebulaConfigSerializeError"),
        NetworkingErrorCodes::NebulaConfigFileCreateError => reveal_strlit("NebulaConfigFileCreateError"),
        NetworkingErrorCodes::NebulaConfigFileGenerateError => reveal_strlit("NebulaConfigFileGenerateError"),
        NetworkingErrorCodes::NebulaStartError => reveal_strlit("NebulaStartError"),
        NetworkingErrorCodes::SudoCheckFailed => reveal_strlit("SudoCheckFailed"),
        NetworkingErrorCodes::CommandRunError => reveal_strlit("CommandRunError"),
        NetworkingErrorCodes::CertNotFoundError => reveal_strlit("CertNotFoundError"),
        NetworkingErrorCodes::KeyNotFoundError => reveal_strlit("KeyNotFoundError"),
        NetworkingErrorCodes::CertValidityCheckError => reveal_strlit("CertValidityCheckError"),
        NetworkingErrorCodes::CertExpiredError => reveal_strlit("CertExpiredError"),
        NetworkingErrorCodes::CertVerificationCheckError => reveal_strlit("CertVerificationCheckError"),
        NetworkingErrorCodes::CertVerifyError => reveal_strlit("CertVerifyError"),
        NetworkingErrorCodes::UnknownError => reveal_strlit("UnknownError"),
        NetworkingErrorCodes::ChannelSendMessageError => reveal_strlit("ChannelSendMessageError"),
        NetworkingErrorCodes::ChannelReceiveMessageError => reveal_strlit("ChannelReceiveMessageError"),
        NetworkingErrorCodes::GenerateKeyPairError => reveal_strlit("GenerateKeyPairError"),
        NetworkingErrorCodes::SettingUpWireguardError => reveal_strlit("SettingUpWireguardError"),
        NetworkingErrorCodes::PullMessagesError => reveal_strlit("PullMessagesError"),
        NetworkingErrorCodes::PayloadDeserializationError => reveal_strlit("PayloadDeserializationError"),
        NetworkingErrorCodes::MessageAcknowledgeError => reveal_strlit("MessageAcknowledgeError"),
        NetworkingErrorCodes::ExtractMessageHeadersError => reveal_strlit("ExtractMessageHeadersError"),
        NetworkingErrorCodes::CreateConsumerError => reveal_strlit("CreateConsumerError"),
        NetworkingErrorCodes::NetworkingInitError => reveal_strlit("NetworkingInitError"),
    }
}

/// Distinct networking error codes print distinct texts: each text is
/// `NetworkingErrorCodes: ` and the code's name, and no two names agree.
pub proof fn networking_code_texts_are_distinct(a: NetworkingErrorCodes, b: NetworkingErrorCodes)
    ensures
        a.spec_text() == b.spec_text() <==> a == b,
        a.spec_name() == b.spec_name() <==> a == b,
{
    lemma_networking_name_key(a);
    lemma_networking_name_key(b);
    let p = "NetworkingErrorCodes: "@;
    if a.spec_text() == b.spec_text() {
        assert(a.spec_name() =~= a.spec_text().skip(p.len() as int));
        assert(b.spec_name() =~= b.spec_text().skip(p.len() as int));
    }
}

/// An interface is an endpoint interface exactly when its lower-cased name
/// starts with `en`, `eth` or `wlan`: `ens33`, `eno1`, `enp0s3`, `eth0` and
/// `wlan0` all are, `lo` and `docker0` are not.
pub proof fn endpoint_interfaces_are_en_eth_or_wlan(name: Seq<char>)
    ensures
        ({
            let lower = spec_to_lowercase(name);
            &&& (lower.len() >= 2 && lower[0] == 'e' && lower[1] == 'n') ==> spec_is_endpoint_interface(name)
            &&& (lower.len() >= 3 && lower[0] == 'e' && lower[1] == 't' && lower[2] == 'h')
                ==> spec_is_endpoint_interface(name)
            &&& (lower.len() >= 4 && lower[0] == 'w' && lower[1] == 'l' && lower[2] == 'a' && lower[3] == 'n')
                ==> spec_is_endpoint_interface(name)
            &&& spec_is_endpoint_interface(name) ==> (lower.len() >= 2 && lower[0] == 'e' && lower[1] == 'n')
                || (lower.len() >= 3 && lower[0] == 'e' && lower[1] == 't' && lower[2] == 'h')
                || (lower.len() >= 4 && lower[0] == 'w' && lower[1] == 'l' && lower[2] == 'a' && lower[3] == 'n')
        }),
{
    reveal_strlit("en");
    reveal_strlit("eth");
    reveal_strlit("wlan");
    let lower = spec_to_lowercase(name);
    if lower.len() >= 2 && lower[0] == 'e' && lower[1] == 'n' {
        assert(lower.subrange(0, 2) =~= "en"@);
    }
    if lower.len() >= 3 && lower[0] == 'e' && lower[1] == 't' && lower[2] == 'h' {
        assert(lower.subrange(0, 3) =~= "eth"@);
    }
    if lower.len() >= 4 && lower[0] == 'w' && lower[1] == 'l' && lower[2] == 'a' && lower[3] == 'n' {
        assert(lower.subrange(0, 4) =~= "wlan"@);
    }
    if starts_with_seq(lower, "en"@) {
        assert(lower.subrange(0, 2)[0] == lower[0] && lower.subrange(0, 2)[1] == lower[1]);
    }
    if starts_with_seq(lower, "eth"@) {
        assert(lower.subrange(0, 3)[0] == lower[0] && lower.subrange(0, 3)[1] == lower[1]
            && lower.subrange(0, 3)[2] == lower[2]);
    }
    if starts_with_seq(lower, "wlan"@) {
        assert(lower.subrange(0, 4)[0] == lower[0] && lower.subrange(0, 4)[1] == lower[1]
            && lower.subrange(0, 4)[2] == lower[2] && lower.subrange(0, 4)[3] == lower[3]);
    }
}

/// The IPv4 address of every endpoint interface is offered as a local
/// candidate: no endpoint interface is passed over.
pub proof fn endpoint_addresses_are_offered(interfaces: Seq<(String, Option<[u8; 4]>)>, j: int, ip: [u8; 4])
    requires
        0 <= j < interfaces.len(),
        interfaces[j].1 == Some(ip),
        spec_is_endpoint_interface(interfaces[j].0@),
    ensures
        spec_endpoints(interfaces).contains(ip),
    decreases interfaces.len(),
{
    let n = interfaces.len();
    let earlier = interfaces.drop_last();
    let prev = spec_endpoints(earlier);
    assert(interfaces.last() == interfaces[n - 1]);
    if j == n - 1 {
        let all = prev.push(ip);
        assert(all[all.len() - 1] == ip);
    } else {
        assert(earlier[j] == interfaces[j]);
        endpoint_addresses_are_offered(earlier, j, ip);
        let k = choose|k: int| 0 <= k < prev.len() && prev[k] == ip;
        let all = spec_endpoints(interfaces);
        assert(all[k] == ip);
    }
}

/// No entry under `key` means nothing is found under it.
proof fn lemma_lookup_absent(entries: Seq<(String, String)>, key: Seq<char>)
    requires
        forall|i: int| 0 <= i < entries.len() ==> (#[trigger] entries[i]).0@ != key,
    ensures
        lookup(entries, key) is None,
    decreases entries.len(),
{
    if entries.len() > 0 {
        assert(entries[0].0@ != key);
        let rest = entries.drop_first();
        assert forall|i: int| 0 <= i < rest.len() implies (#[trigger] rest[i]).0@ != key by {
            assert(rest[i] == entries[i + 1]);
        }
        lemma_lookup_absent(rest, key);
    }
}

/// The first entry under `key` gives the value found under it.
proof fn lemma_lookup_first(entries: Seq<(String, String)>, key: Seq<char>, i: int)
    requires
        0 <= i < entries.len(),
        entries[i].0@ == key,
        forall|j: int| 0 <= j < i ==> (#[trigger] entries[j]).0@ != key,
    ensures
        lookup(entries, key) == Some(entries[i].1@),
    decreases i,
{
    if i > 0 {
        assert(entries[0].0@ != key);
        let rest = entries.drop_first();
        assert(rest[i - 1] == entries[i]);
        assert forall|j: int| 0 <= j < i - 1 implies (#[trigger] rest[j]).0@ != key by {
            assert(rest[j] == entries[j + 1]);
        }
        lemma_lookup_first(rest, key, i - 1);
    }
}

/// Messaging reconnects exactly when `networking.enabled` changes: with no
/// such entry in the existing settings it always reconnects, and with one
/// (the first, when there are several) it reconnects exactly when the
/// existing value differs from the new one.
pub proof fn reconnect_exactly_when_setting_changes(existing: StringTable, new_setting: Seq<char>, i: int)
    ensures
        (forall|k: int| 0 <= k < existing.entries@.len()
            ==> (#[trigger] existing.entries@[k]).0@ != "networking.enabled"@)
            ==> spec_needs_reconnect(existing, new_setting),
        (0 <= i < existing.entries@.len() && existing.entries@[i].0@ == "networking.enabled"@
            && forall|k: int| 0 <= k < i ==> (#[trigger] existing.entries@[k]).0@ != "networking.enabled"@)
            ==> (spec_needs_reconnect(existing, new_setting) <==> existing.entries@[i].1@ != new_setting),
{
    let entries = existing.entries@;
    let key = "networking.enabled"@;
    if forall|k: int| 0 <= k < entries.len() ==> (#[trigger] entries[k]).0@ != key {
        lemma_lookup_absent(entries, key);
    }
    if 0 <= i < entries.len() && entries[i].0@ == key && forall|k: int| 0 <= k < i ==> (#[trigger] entries[k]).0@
        != key {
        lemma_lookup_first(entries, key, i);
    }
}

/// Where a status name falls in the list of resolved names: each name is
/// told apart from the ones listed before it by its length or its first
/// letter.
proof fn lemma_status_name_resolves(c: GrpcCode)
    ensures
        c.is_resolvable() ==> spec_code_from_name(c.status_name()) == c,
        !c.is_resolvable() ==> spec_code_from_name(c.status_name()) == GrpcCode::Unknown,
{
    match c {
        GrpcCode::Okay => {
            assert("OK"@.len() == 2 && "OK"@[0] == 'O') by {
                reveal_strlit("OK");
            }
            assert(spec_code_from_name(c.status_name()) == GrpcCode::Okay);
        },
        GrpcCode::Cancelled => {
            assert("CANCELLED"@.len() == 9 && "CANCELLED"@[0] == 'C') by {
                reveal_strlit("CANCELLED");
            }
            assert("OK"@.len() == 2 && "OK"@[0] == 'O') by {
                reveal_strlit("OK");
            }
            assert(spec_code_from_name(c.status_name()) == GrpcCode::Cancelled);
        },
        GrpcCode::Unknown => {
            assert("UNKNOWN"@.len() == 7 && "UNKNOWN"@[0] == 'U') by {
                reveal_strlit("UNKNOWN");
            }
            assert("OK"@.len() == 2 && "OK"@[0] == 'O') by {
                reveal_strlit("OK");
            }
            assert("CANCELLED"@.len() == 9 && "CANCELLED"@[0] == 'C') by {
                reveal_strlit("CANCELLED");
            }
            assert(spec_code_from_name(c.status_name()) == GrpcCode::Unknown);
        },
        GrpcCode::InvalidArgument => {
            assert("INVALID_ARGUMENT"@.len() == 16 && "INVALID_ARGUMENT"@[0] == 'I') by {
                reveal_strlit("INVALID_ARGUMENT");
            }
            assert("OK"@.len() == 2 && "OK"@[0] == 'O') by {
                reveal_strlit("OK");
            }
            assert("CANCELLED"@.len() == 9 && "CANCELLED"@[0] == 'C') by {
                reveal_strlit("CANCELLED");
            }
            assert("UNKNOWN"@.len() == 7 && "UNKNOWN"@[0] == 'U') by {
                reveal_strlit("UNKNOWN");
            }
            assert(spec_code_from_name(c.status_name()) == GrpcCode::InvalidArgument);
        },
        GrpcCode::DeadlineExceeded => {
            assert("DEADLINE_EXCEEDED"@.len() == 17 && "DEADLINE_EXCEEDED"@[0] == 'D') by {
                reveal_strlit("DEADLINE_EXCEEDED");
            }
            assert("OK"@.len() == 2 && "OK"@[0] == 'O') by {
                reveal_strlit("OK");
            }
            assert("CANCELLED"@.len() == 9 && "CANCELLED"@[0] == 'C') by {
                reveal_strlit("CANCELLED");
            }
            assert("UNKNOWN"@.len() == 7 && "UNKNOWN"@[0] == 'U') by {
                reveal_strlit("UNKNOWN");
            }
            assert("INVALID_ARGUMENT"@.len() == 16 && "INVALID_ARGUMENT"@[0] == 'I') by {
                reveal_strlit("INVALID_ARGUMENT");
            }
            assert(spec_code_from_name(c.status_name()) == GrpcCode::DeadlineExceeded);
        },
        GrpcCode::NotFound => {
            assert("NOT_FOUND"@.len() == 9 && "NOT_FOUND"@[0] == 'N') by {
                reveal_strlit("NOT_FOUND");
            }
            assert("OK"@.len() == 2 && "OK"@[0] == 'O') by {
                reveal_strlit("OK");
            }
            assert("CANCELLED"@.len() == 9 && "CANCELLED"@[0] == 'C') by {
                reveal_strlit("CANCELLED");
            }
            assert("UNKNOWN"@.len() == 7 && "UNKNOWN"@[0] == 'U') by {
                reveal_strlit("UNKNOWN");
            }
            assert("INVALID_ARGUMENT"@.len() == 16 && "INVALID_ARGUMENT"@[0] == 'I') by {
                reveal_strlit("INVALID_ARGUMENT");
            }
            assert("DEADLINE_EXCEEDED"@.len() == 17 && "DEADLINE_EXCEEDED"@[0] == 'D') by {
                reveal_strlit("DEADLINE_EXCEEDED");
            }
            assert(spec_code_from_name(c.status_name()) == GrpcCode::NotFound);
        },
        GrpcCode::Aborted => {
            assert("ABORTED"@.len() == 7 && "ABORTED"@[0] == 'A') by {
                reveal_strlit("ABORTED");
            }
            assert("OK"@.len() == 2 && "OK"@[0] == 'O') by {
                reveal_strlit("OK");
            }
            assert("CANCELLED"@.len() == 9 && "CANCELLED"@[0] == 'C') by {
                reveal_strlit("CANCELLED");
            }
            assert("UNKNOWN"@.len() == 7 && "UNKNOWN"@[0] == 'U') by {
                reveal_strlit("UNKNOWN");
            }
            assert("INVALID_ARGUMENT"@.len() == 16 && "INVALID_ARGUMENT"@[0] == 'I') by {
                reveal_strlit("INVALID_ARGUMENT");
            }
            assert("DEADLINE_EXCEEDED"@.len() == 17 && "DEADLINE_EXCEEDED"@[0] == 'D') by {
                reveal_strlit("DEADLINE_EXCEEDED");
            }
            assert("NOT_FOUND"@.len() == 9 && "NOT_FOUND"@[0] == 'N') by {
                reveal_strlit("NOT_FOUND");
            }
            assert(spec_code_from_name(c.status_name()) == GrpcCode::Aborted);
        },
        GrpcCode::Unimplemented => {
            assert("UNIMPLEMENTED"@.len() == 13 && "UNIMPLEMENTED"@[0] == 'U') by {
                reveal_strlit("UNIMPLEMENTED");
            }
            assert("OK"@.len() == 2 && "OK"@[0] == 'O') by {
                reveal_strlit("OK");
            }
            assert("CANCELLED"@.len() == 9 && "CANCELLED"@[0] == 'C') by {
                reveal_strlit("CANCELLED");
            }
            assert("UNKNOWN"@.len() == 7 && "UNKNOWN"@[0] == 'U') by {
                reveal_strlit("UNKNOWN");
            }
            assert("INVALID_ARGUMENT"@.len() == 16 && "INVALID_ARGUMENT"@[0] == 'I') by {
                reveal_strlit("INVALID_ARGUMENT");
            }
            assert("DEADLINE_EXCEEDED"@.len() == 17 && "DEADLINE_EXCEEDED"@[0] == 'D') by {
                reveal_strlit("DEADLINE_EXCEEDED");
            }
            assert("NOT_FOUND"@.len() == 9 && "NOT_FOUND"@[0] == 'N') by {
                reveal_strlit("NOT_FOUND");
            }
            assert("ABORTED"@.len() == 7 && "ABORTED"@[0] == 'A') by {
                reveal_strlit("ABORTED");
            }
            assert(spec_code_from_name(c.status_name()) == GrpcCode::Unimplemented);
        },
        GrpcCode::Internal => {
            assert("INTERNAL"@.len() == 8 && "INTERNAL"@[0] == 'I') by {
                reveal_strlit("INTERNAL");
            }
            assert("OK"@.len() == 2 && "OK"@[0] == 'O') by {
                reveal_strlit("OK");
            }
            assert("CANCELLED"@.len() == 9 && "CANCELLED"@[0] == 'C') by {
                reveal_strlit("CANCELLED");
            }
            assert("UNKNOWN"@.len() == 7 && "UNKNOWN"@[0] == 'U') by {
                reveal_strlit("UNKNOWN");
            }
            assert("INVALID_ARGUMENT"@.len() == 16 && "INVALID_ARGUMENT"@[0] == 'I') by {
                reveal_strlit("INVALID_ARGUMENT");
            }
            assert("DEADLINE_EXCEEDED"@.len() == 17 && "DEADLINE_EXCEEDED"@[0] == 'D') by {
                reveal_strlit("DEADLINE_EXCEEDED");
            }
            assert("NOT_FOUND"@.len() == 9 && "NOT_FOUND"@[0] == 'N') by {
                reveal_strlit("NOT_FOUND");
            }
            assert("ABORTED"@.len() == 7 && "ABORTED"@[0] == 'A') by {
                reveal_strlit("ABORTED");
            }
            assert("UNIMPLEMENTED"@.len() == 13 && "UNIMPLEMENTED"@[0] == 'U') by {
                reveal_strlit("UNIMPLEMENTED");
            }
            assert(spec_code_from_name(c.status_name()) == GrpcCode::Internal);
        },
        GrpcCode::Unavailable => {
            assert("UNAVAILABLE"@.len() == 11 && "UNAVAILABLE"@[0] == 'U') by {
                reveal_strlit("UNAVAILABLE");
            }
            assert("OK"@.len() == 2 && "OK"@[0] == 'O') by {
                reveal_strlit("OK");
            }
            assert("CANCELLED"@.len() == 9 && "CANCELLED"@[0] == 'C') by {
                reveal_strlit("CANCELLED");
            }
            assert("UNKNOWN"@.len() == 7 && "UNKNOWN"@[0] == 'U') by {
                reveal_strlit("UNKNOWN");
            }
            assert("INVALID_ARGUMENT"@.len() == 16 && "INVALID_ARGUMENT"@[0] == 'I') by {
                reveal_strlit("INVALID_ARGUMENT");
            }
            assert("DEADLINE_EXCEEDED"@.len() == 17 && "DEADLINE_EXCEEDED"@[0] == 'D') by {
                reveal_strlit("DEADLINE_EXCEEDED");
            }
            assert("NOT_FOUND"@.len() == 9 && "NOT_FOUND"@[0] == 'N') by {
                reveal_strlit("NOT_FOUND");
            }
            assert("ABORTED"@.len() == 7 && "ABORTED"@[0] == 'A') by {
                reveal_strlit("ABORTED");
            }
            assert("UNIMPLEMENTED"@.len() == 13 && "UNIMPLEMENTED"@[0] == 'U') by {
                reveal_strlit("UNIMPLEMENTED");
            }
            assert("INTERNAL"@.len() == 8 && "INTERNAL"@[0] == 'I') by {
                reveal_strlit("INTERNAL");
            }
            assert(spec_code_from_name(c.status_name()) == GrpcCode::Unavailable);
        },
        GrpcCode::Unauthenticated => {
            assert("UNAUTHENTICATED"@.len() == 15 && "UNAUTHENTICATED"@[0] == 'U') by {
                reveal_strlit("UNAUTHENTICATED");
            }
            assert("OK"@.len() == 2 && "OK"@[0] == 'O') by {
                reveal_strlit("OK");
            }
            assert("CANCELLED"@.len() == 9 && "CANCELLED"@[0] == 'C') by {
                reveal_strlit("CANCELLED");
            }
            assert("UNKNOWN"@.len() == 7 && "UNKNOWN"@[0] == 'U') by {
                reveal_strlit("UNKNOWN");
            }
            assert("INVALID_ARGUMENT"@.len() == 16 && "INVALID_ARGUMENT"@[0] == 'I') by {
                reveal_strlit("INVALID_ARGUMENT");
            }
            assert("DEADLINE_EXCEEDED"@.len() == 17 && "DEADLINE_EXCEEDED"@[0] == 'D') by {
                reveal_strlit("DEADLINE_EXCEEDED");
            }
            assert("NOT_FOUND"@.len() == 9 && "NOT_FOUND"@[0] == 'N') by {
                reveal_strlit("NOT_FOUND");
            }
            assert("ABORTED"@.len() == 7 && "ABORTED"@[0] == 'A') by {
                reveal_strlit("ABORTED");
            }
            assert("UNIMPLEMENTED"@.len() == 13 && "UNIMPLEMENTED"@[0] == 'U') by {
                reveal_strlit("UNIMPLEMENTED");
            }
            assert("INTERNAL"@.len() == 8 && "INTERNAL"@[0] == 'I') by {
                reveal_strlit("INTERNAL");
            }
            assert("UNAVAILABLE"@.len() == 11 && "UNAVAILABLE"@[0] == 'U') by {
                reveal_strlit("UNAVAILABLE");
            }
            assert(spec_code_from_name(c.status_name()) == GrpcCode::Unauthenticated);
        },
        GrpcCode::AlreadyExists => {
            assert("ALREADY_EXISTS"@.len() == 14 && "ALREADY_EXISTS"@[0] == 'A') by {
                reveal_strlit("ALREADY_EXISTS");
            }
            assert("OK"@.len() == 2 && "OK"@[0] == 'O') by {
                reveal_strlit("OK");
            }
            assert("CANCELLED"@.len() == 9 && "CANCELLED"@[0] == 'C') by {
                reveal_strlit("CANCELLED");
            }
            assert("UNKNOWN"@.len() == 7 && "UNKNOWN"@[0] == 'U') by {
                reveal_strlit("UNKNOWN");
            }
            assert("INVALID_ARGUMENT"@.len() == 16 && "INVALID_ARGUMENT"@[0] == 'I') by {
                reveal_strlit("INVALID_ARGUMENT");
            }
            assert("DEADLINE_EXCEEDED"@.len() == 17 && "DEADLINE_EXCEEDED"@[0] == 'D') by {
                reveal_strlit("DEADLINE_EXCEEDED");
            }
            assert("NOT_FOUND"@.len() == 9 && "NOT_FOUND"@[0] == 'N') by {
                reveal_strlit("NOT_FOUND");
            }
            assert("ABORTED"@.len() == 7 && "ABORTED"@[0] == 'A') by {
                reveal_strlit("ABORTED");
            }
            assert("UNIMPLEMENTED"@.len() == 13 && "UNIMPLEMENTED"@[0] == 'U') by {
                reveal_strlit("UNIMPLEMENTED");
            }
            assert("INTERNAL"@.len() == 8 && "INTERNAL"@[0] == 'I') by {
                reveal_strlit("INTERNAL");
            }
            assert("UNAVAILABLE"@.len() == 11 && "UNAVAILABLE"@[0] == 'U') by {
                reveal_strlit("UNAVAILABLE");
            }
            assert("UNAUTHENTICATED"@.len() == 15 && "UNAUTHENTICATED"@[0] == 'U') by {
                reveal_strlit("UNAUTHENTICATED");
            }
            assert(spec_code_from_name(c.status_name()) == GrpcCode::Unknown);
        },
        GrpcCode::PermissionDenied => {
            assert("PERMISSION_DENIED"@.len() == 17 && "PERMISSION_DENIED"@[0] == 'P') by {
                reveal_strlit("PERMISSION_DENIED");
            }
            assert("OK"@.len() == 2 && "OK"@[0] == 'O') by {
                reveal_strlit("OK");
            }
            assert("CANCELLED"@.len() == 9 && "CANCELLED"@[0] == 'C') by {
                reveal_strlit("CANCELLED");
            }
            assert("UNKNOWN"@.len() == 7 && "UNKNOWN"@[0] == 'U') by {
                reveal_strlit("UNKNOWN");
            }
            assert("INVALID_ARGUMENT"@.len() == 16 && "INVALID_ARGUMENT"@[0] == 'I') by {
                reveal_strlit("INVALID_ARGUMENT");
            }
            assert("DEADLINE_EXCEEDED"@.len() == 17 && "DEADLINE_EXCEEDED"@[0] == 'D') by {
                reveal_strlit("DEADLINE_EXCEEDED");
            }
            assert("NOT_FOUND"@.len() == 9 && "NOT_FOUND"@[0] == 'N') by {
                reveal_strlit("NOT_FOUND");
            }
            assert("ABORTED"@.len() == 7 && "ABORTED"@[0] == 'A') by {
                reveal_strlit("ABORTED");
            }
            assert("UNIMPLEMENTED"@.len() == 13 && "UNIMPLEMENTED"@[0] == 'U') by {
                reveal_strlit("UNIMPLEMENTED");
            }
            assert("INTERNAL"@.len() == 8 && "INTERNAL"@[0] == 'I') by {
                reveal_strlit("INTERNAL");
            }
            assert("UNAVAILABLE"@.len() == 11 && "UNAVAILABLE"@[0] == 'U') by {
                reveal_strlit("UNAVAILABLE");
            }
            assert("UNAUTHENTICATED"@.len() == 15 && "UNAUTHENTICATED"@[0] == 'U') by {
                reveal_strlit("UNAUTHENTICATED");
            }
            assert(spec_code_from_name(c.status_name()) == GrpcCode::Unknown);
        },
        GrpcCode::ResourceExhausted => {
            assert("RESOURCE_EXHAUSTED"@.len() == 18 && "RESOURCE_EXHAUSTED"@[0] == 'R') by {
                reveal_strlit("RESOURCE_EXHAUSTED");
            }
            assert("OK"@.len() == 2 && "OK"@[0] == 'O') by {
                reveal_strlit("OK");
            }
            assert("CANCELLED"@.len() == 9 && "CANCELLED"@[0] == 'C') by {
                reveal_strlit("CANCELLED");
            }
            assert("UNKNOWN"@.len() == 7 && "UNKNOWN"@[0] == 'U') by {
                reveal_strlit("UNKNOWN");
            }
            assert("INVALID_ARGUMENT"@.len() == 16 && "INVALID_ARGUMENT"@[0] == 'I') by {
                reveal_strlit("INVALID_ARGUMENT");
            }
            assert("DEADLINE_EXCEEDED"@.len() == 17 && "DEADLINE_EXCEEDED"@[0] == 'D') by {
                reveal_strlit("DEADLINE_EXCEEDED");
            }
            assert("NOT_FOUND"@.len() == 9 && "NOT_FOUND"@[0] == 'N') by {
                reveal_strlit("NOT_FOUND");
            }
            assert("ABORTED"@.len() == 7 && "ABORTED"@[0] == 'A') by {
                reveal_strlit("ABORTED");
            }
            assert("UNIMPLEMENTED"@.len() == 13 && "UNIMPLEMENTED"@[0] == 'U') by {
                reveal_strlit("UNIMPLEMENTED");
            }
            assert("INTERNAL"@.len() == 8 && "INTERNAL"@[0] == 'I') by {
                reveal_strlit("INTERNAL");
            }
            assert("UNAVAILABLE"@.len() == 11 && "UNAVAILABLE"@[0] == 'U') by {
                reveal_strlit("UNAVAILABLE");
            }
            assert("UNAUTHENTICATED"@.len() == 15 && "UNAUTHENTICATED"@[0] == 'U') by {
                reveal_strlit("UNAUTHENTICATED");
            }
            assert(spec_code_from_name(c.status_name()) == GrpcCode::Unknown);
        },
        GrpcCode::FailedPrecondition => {
            assert("FAILED_PRECONDITION"@.len() == 19 && "FAILED_PRECONDITION"@[0] == 'F') by {
                reveal_strlit("FAILED_PRECONDITION");
            }
            assert("OK"@.len() == 2 && "OK"@[0] == 'O') by {
                reveal_strlit("OK");
            }
            assert("CANCELLED"@.len() == 9 && "CANCELLED"@[0] == 'C') by {
                reveal_strlit("CANCELLED");
            }
            assert("UNKNOWN"@.len() == 7 && "UNKNOWN"@[0] == 'U') by {
                reveal_strlit("UNKNOWN");
            }
            assert("INVALID_ARGUMENT"@.len() == 16 && "INVALID_ARGUMENT"@[0] == 'I') by {
                reveal_strlit("INVALID_ARGUMENT");
            }
            assert("DEADLINE_EXCEEDED"@.len() == 17 && "DEADLINE_EXCEEDED"@[0] == 'D') by {
                reveal_strlit("DEADLINE_EXCEEDED");
            }
            assert("NOT_FOUND"@.len() == 9 && "NOT_FOUND"@[0] == 'N') by {
                reveal_strlit("NOT_FOUND");
            }
            assert("ABORTED"@.len() == 7 && "ABORTED"@[0] == 'A') by {
                reveal_strlit("ABORTED");
            }
            assert("UNIMPLEMENTED"@.len() == 13 && "UNIMPLEMENTED"@[0] == 'U') by {
                reveal_strlit("UNIMPLEMENTED");
            }
            assert("INTERNAL"@.len() == 8 && "INTERNAL"@[0] == 'I') by {
                reveal_strlit("INTERNAL");
            }
            assert("UNAVAILABLE"@.len() == 11 && "UNAVAILABLE"@[0] == 'U') by {
                reveal_strlit("UNAVAILABLE");
            }
            assert("UNAUTHENTICATED"@.len() == 15 && "UNAUTHENTICATED"@[0] == 'U') by {
                reveal_strlit("UNAUTHENTICATED");
            }
            assert(spec_code_from_name(c.status_name()) == GrpcCode::Unknown);
        },
        GrpcCode::OutOfRange => {
            assert("OUT_OF_RANGE"@.len() == 12 && "OUT_OF_RANGE"@[0] == 'O') by {
                reveal_strlit("OUT_OF_RANGE");
            }
            assert("OK"@.len() == 2 && "OK"@[0] == 'O') by {
                reveal_strlit("OK");
            }
            assert("CANCELLED"@.len() == 9 && "CANCELLED"@[0] == 'C') by {
                reveal_strlit("CANCELLED");
            }
            assert("UNKNOWN"@.len() == 7 && "UNKNOWN"@[0] == 'U') by {
                reveal_strlit("UNKNOWN");
            }
            assert("INVALID_ARGUMENT"@.len() == 16 && "INVALID_ARGUMENT"@[0] == 'I') by {
                reveal_strlit("INVALID_ARGUMENT");
            }
            assert("DEADLINE_EXCEEDED"@.len() == 17 && "DEADLINE_EXCEEDED"@[0] == 'D') by {
                reveal_strlit("DEADLINE_EXCEEDED");
            }
            assert("NOT_FOUND"@.len() == 9 && "NOT_FOUND"@[0] == 'N') by {
                reveal_strlit("NOT_FOUND");
            }
            assert("ABORTED"@.len() == 7 && "ABORTED"@[0] == 'A') by {
                reveal_strlit("ABORTED");
            }
            assert("UNIMPLEMENTED"@.len() == 13 && "UNIMPLEMENTED"@[0] == 'U') by {
                reveal_strlit("UNIMPLEMENTED");
            }
            assert("INTERNAL"@.len() == 8 && "INTERNAL"@[0] == 'I') by {
                reveal_strlit("INTERNAL");
            }
            assert("UNAVAILABLE"@.len() == 11 && "UNAVAILABLE"@[0] == 'U') by {
                reveal_strlit("UNAVAILABLE");
            }
            assert("UNAUTHENTICATED"@.len() == 15 && "UNAUTHENTICATED"@[0] == 'U') by {
                reveal_strlit("UNAUTHENTICATED");
            }
            assert(spec_code_from_name(c.status_name()) == GrpcCode::Unknown);
        },
        GrpcCode::DataLoss => {
            assert("DATA_LOSS"@.len() == 9 && "DATA_LOSS"@[0] == 'D') by {
                reveal_strlit("DATA_LOSS");
            }
            assert("OK"@.len() == 2 && "OK"@[0] == 'O') by {
                reveal_strlit("OK");
            }
            assert("CANCELLED"@.len() == 9 && "CANCELLED"@[0] == 'C') by {
                reveal_strlit("CANCELLED");
            }
            assert("UNKNOWN"@.len() == 7 && "UNKNOWN"@[0] == 'U') by {
                reveal_strlit("UNKNOWN");
            }
            assert("INVALID_ARGUMENT"@.len() == 16 && "INVALID_ARGUMENT"@[0] == 'I') by {
                reveal_strlit("INVALID_ARGUMENT");
            }
            assert("DEADLINE_EXCEEDED"@.len() == 17 && "DEADLINE_EXCEEDED"@[0] == 'D') by {
                reveal_strlit("DEADLINE_EXCEEDED");
            }
            assert("NOT_FOUND"@.len() == 9 && "NOT_FOUND"@[0] == 'N') by {
                reveal_strlit("NOT_FOUND");
            }
            assert("ABORTED"@.len() == 7 && "ABORTED"@[0] == 'A') by {
                reveal_strlit("ABORTED");
            }
            assert("UNIMPLEMENTED"@.len() == 13 && "UNIMPLEMENTED"@[0] == 'U') by {
                reveal_strlit("UNIMPLEMENTED");
            }
            assert("INTERNAL"@.len() == 8 && "INTERNAL"@[0] == 'I') by {
                reveal_strlit("INTERNAL");
            }
            assert("UNAVAILABLE"@.len() == 11 && "UNAVAILABLE"@[0] == 'U') by {
                reveal_strlit("UNAVAILABLE");
            }
            assert("UNAUTHENTICATED"@.len() == 15 && "UNAUTHENTICATED"@[0] == 'U') by {
                reveal_strlit("UNAUTHENTICATED");
            }
            assert(spec_code_from_name(c.status_name()) == GrpcCode::Unknown);
        },
    }
}

/// Each listed gRPC status name resolves to its own code, the other codes'
/// names resolve to `Unknown`, and a name that resolves to a code other
/// than `Unknown` is that code's name; so distinct listed names resolve to
/// distinct codes. A name given in any letter case resolves as its
/// upper-case form does.
pub proof fn status_names_resolve_to_their_codes(c: GrpcCode, d: GrpcCode, name: Seq<char>)
    ensures
        c.is_resolvable() ==> spec_code_from_name(c.status_name()) == c,
        !c.is_resolvable() ==> spec_code_from_name(c.status_name()) == GrpcCode::Unknown,
        spec_code_from_name(name) != GrpcCode::Unknown ==> name == spec_code_from_name(name).status_name(),
        c.is_resolvable() && d.is_resolvable() && c != d ==> spec_code_from_name(c.status_name())
            != spec_code_from_name(d.status_name()),
        c.is_resolvable() && ascii_upper(name) == c.status_name() ==> spec_code_from_name(ascii_upper(name)) == c,
{
    lemma_status_name_resolves(c);
    lemma_status_name_resolves(d);
}

/// Each messaging request is served by an operation of its own: two
/// requests share an operation only when both (re)connect; a `Request`
/// is served by the broker's request, whose reply is awaited, and a `Send`
/// by a publish; only a `Disconnect` goes unanswered.
pub proof fn each_request_has_its_own_operation(a: MessagingRequest, b: MessagingRequest)
    ensures
        spec_operation(a) == spec_operation(b) ==> a == b || ((a is Connect || a is Reconnect) && (b is Connect
            || b is Reconnect)),
        spec_operation(a) == MessagingOperation::Request <==> a is Request,
        spec_operation(a) == MessagingOperation::Publish <==> a is Send,
        spec_operation(a) == MessagingOperation::Unanswered <==> a is Disconnect,
{
}

} // verus!
