//! The capability handshake: the `initialize` request, the cache, and the
//! notification that acknowledges the answer.

use crate::client::{id_after, Client, PendingRequest};
use crate::error::Error;
use crate::protocol::{is_notification, is_request, Message};
use crate::json::{entries_view, json_object, json_string, object_value, string_value};
use crate::types::InitializeResult;
use vstd::prelude::*;
use vstd::string::StringExecFns;

verus! {

/// The protocol version that the client offers in the handshake.
pub const LATEST_PROTOCOL_VERSION: &'static str = "2024-11-05";

/// The parameters of the `initialize` request.
pub open spec fn initialize_params(
    client_info: serde_json::Value,
    capabilities: serde_json::Value,
) -> serde_json::Value {
    object_value(
        seq![
            ("clientInfo"@, client_info),
            ("capabilities"@, capabilities),
            ("protocolVersion"@, string_value(LATEST_PROTOCOL_VERSION@)),
        ],
    )
}

impl Client {
    /// Starts the handshake: the `initialize` request, whose parameters
    /// hold the client's identity, its capabilities and the protocol
    /// version.
    pub fn initialize(
        &mut self,
        client_info: serde_json::Value,
        capabilities: serde_json::Value,
    ) -> (r: (PendingRequest, Message))
        requires
            old(self).can_issue(),
        ensures
            r.0.id == id_after(old(self).issued()),
            r.0.method@ == "initialize"@,
            is_request(
                r.1,
                "initialize"@,
                Some(initialize_params(client_info, capabilities)),
                r.0.id,
            ),
            final(self).issued() == old(self).issued() + 1,
            final(self).cached() == old(self).cached(),
            final(self).queue() == old(self).queue(),
            final(self).pump_running() == old(self).pump_running(),
    {
        let mut entries: Vec<(String, serde_json::Value)> = Vec::new();
        entries.push((String::from_str("clientInfo"), client_info));
        entries.push((String::from_str("capabilities"), capabilities));
        entries.push((String::from_str("protocolVersion"), json_string(LATEST_PROTOCOL_VERSION)));
        proof {
            assert(entries_view(entries@) =~= seq![
                ("clientInfo"@, client_info),
                ("capabilities"@, capabilities),
                ("protocolVersion"@, string_value(LATEST_PROTOCOL_VERSION@)),
            ]);
        }
        let params = json_object(entries);
        self.request("initialize", Some(params))
    }

    /// Ends the handshake on the outcome of the `initialize` request. A
    /// result is cached, over any earlier one, and comes back with the
    /// `notifications/initialized` envelope to send next. A failure comes
    /// back as it is: the cache stays and there is nothing to send.
    pub fn complete_initialize(&mut self, outcome: Result<InitializeResult, Error>) -> (r: Result<
        (InitializeResult, Message),
        Error,
    >)
        ensures
            match outcome {
                Ok(result) => {
                    &&& r matches Ok(pair)
                    &&& pair.0 == result
                    &&& is_notification(pair.1, "notifications/initialized"@, None)
                    &&& final(self).cached() == Some(result.capabilities)
                },
                Err(e) => {
                    &&& r == Err::<(InitializeResult, Message), Error>(e)
                    &&& final(self).cached() == old(self).cached()
                },
            },
            r matches Ok(pair) ==> final(self).cached() == Some(pair.0.capabilities),
            r.is_ok() == outcome.is_ok(),
            final(self).issued() == old(self).issued(),
            final(self).queue() == old(self).queue(),
            final(self).pump_running() == old(self).pump_running(),
    {
        match outcome {
            Ok(result) => {
                self.cache(result.capabilities);
                let acknowledgement = self.notify("notifications/initialized", None);
                Ok((result, acknowledgement))
            },
            Err(e) => Err(e),
        }
    }
}

} // verus!
