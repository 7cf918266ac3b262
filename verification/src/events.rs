//! The resolution-event emitter: builds the one fixed event that this ledger
//! publishes, as a JSON log line for the host's log sink. The exact character
//! sequence of the line is given by `event_log_line`, so a caller knows the
//! schema name, version tag, event name and payload field set in full.

use vstd::prelude::*;
use vstd::string::StringExecFns;

use crate::text::{append_escaped, dec_digits, json_escaped, u32_to_decimal};

verus! {

/// Payload of a "run_agent" event: the message for the resolving agent, the
/// agent's identifier, the signing caller, and a set of optional metadata
/// fields that default to empty.
pub struct AgentData {
    pub message: String,
    pub agent: String,
    pub env_vars: Option<String>,
    pub request_id: Option<String>,
    pub max_iterations: Option<u8>,
    pub thread_id: Option<String>,
    pub signer_id: String,
    pub referral_id: Option<String>,
}

/// The mathematical model of an `AgentData` payload.
pub ghost struct AgentDataView {
    pub message: Seq<char>,
    pub agent: Seq<char>,
    pub env_vars: Option<Seq<char>>,
    pub request_id: Option<Seq<char>>,
    pub max_iterations: Option<u8>,
    pub thread_id: Option<Seq<char>>,
    pub signer_id: Seq<char>,
    pub referral_id: Option<Seq<char>>,
}

impl View for AgentData {
    type V = AgentDataView;

    open spec fn view(&self) -> AgentDataView {
        AgentDataView {
            message: self.message@,
            agent: self.agent@,
            env_vars: self.env_vars.deep_view(),
            request_id: self.request_id.deep_view(),
            max_iterations: self.max_iterations,
            thread_id: self.thread_id.deep_view(),
            signer_id: self.signer_id@,
            referral_id: self.referral_id.deep_view(),
        }
    }
}

/// A JSON string literal: the escaped text between double quotes.
pub open spec fn json_string(s: Seq<char>) -> Seq<char> {
    seq!['"'] + json_escaped(s) + seq!['"']
}

/// An optional JSON string: `null` when absent.
pub open spec fn json_opt_string(o: Option<Seq<char>>) -> Seq<char> {
    match o {
        Option::Some(s) => json_string(s),
        Option::None => "null"@,
    }
}

/// An optional JSON number: `null` when absent.
pub open spec fn json_opt_u8(o: Option<u8>) -> Seq<char> {
    match o {
        Option::Some(v) => dec_digits(v as nat),
        Option::None => "null"@,
    }
}

/// The payload object, with its fixed field set and order.
pub open spec fn agent_data_json(d: AgentDataView) -> Seq<char> {
    "{\"message\":"@ + json_string(d.message) + ",\"agent\":"@ + json_string(d.agent)
        + ",\"env_vars\":"@ + json_opt_string(d.env_vars) + ",\"request_id\":"@ + json_opt_string(
        d.request_id,
    ) + ",\"max_iterations\":"@ + json_opt_u8(d.max_iterations) + ",\"thread_id\":"@
        + json_opt_string(d.thread_id) + ",\"signer_id\":"@ + json_string(d.signer_id)
        + ",\"referral_id\":"@ + json_opt_string(d.referral_id) + "}"@
}

/// The whole published log line: the event-JSON marker, then one object with
/// the schema name, the version tag, the event name, and a single-element
/// `data` list holding the payload.
pub open spec fn event_log_line(event: Seq<char>, d: AgentDataView) -> Seq<char> {
    "EVENT_JSON:{\"standard\":\"nearai\",\"version\":\"0.1.19\",\"event\":"@ + json_string(event)
        + ",\"data\":["@ + agent_data_json(d) + "]}"@
}

/// The payload that a resolution request carries: only the message, the agent
/// and the signer are set; every optional field is left empty.
pub open spec fn agent_payload(message: Seq<char>, agent: Seq<char>, signer: Seq<char>) -> AgentDataView {
    AgentDataView {
        message,
        agent,
        env_vars: Option::None,
        request_id: Option::None,
        max_iterations: Option::None,
        thread_id: Option::None,
        signer_id: signer,
        referral_id: Option::None,
    }
}

fn append_json_string(out: &mut String, s: &str)
    ensures
        final(out)@ == old(out)@ + json_string(s@),
{
    out.append("\"");
    append_escaped(out, s);
    out.append("\"");
    proof {
        reveal_strlit("\"");
        assert(final(out)@ =~= old(out)@ + json_string(s@));
    }
}

fn append_json_opt_string(out: &mut String, o: &Option<String>)
    ensures
        final(out)@ == old(out)@ + json_opt_string(o.deep_view()),
{
    match o {
        Option::Some(s) => append_json_string(out, s.as_str()),
        Option::None => out.append("null"),
    }
}

fn append_json_opt_u8(out: &mut String, o: &Option<u8>)
    ensures
        final(out)@ == old(out)@ + json_opt_u8(*o),
{
    match o {
        Option::Some(v) => {
            let d = u32_to_decimal(*v as u32);
            out.append(d.as_str());
        },
        Option::None => out.append("null"),
    }
}

fn append_agent_data(out: &mut String, data: &AgentData)
    ensures
        final(out)@ == old(out)@ + agent_data_json(data@),
{
    out.append("{\"message\":");
    append_json_string(out, data.message.as_str());
    out.append(",\"agent\":");
    append_json_string(out, data.agent.as_str());
    out.append(",\"env_vars\":");
    append_json_opt_string(out, &data.env_vars);
    out.append(",\"request_id\":");
    append_json_opt_string(out, &data.request_id);
    out.append(",\"max_iterations\":");
    append_json_opt_u8(out, &data.max_iterations);
    out.append(",\"thread_id\":");
    append_json_opt_string(out, &data.thread_id);
    out.append(",\"signer_id\":");
    append_json_string(out, data.signer_id.as_str());
    out.append(",\"referral_id\":");
    append_json_opt_string(out, &data.referral_id);
    out.append("}");
    proof {
        assert(final(out)@ =~= old(out)@ + agent_data_json(data@));
    }
}

/// Builds the log line that publishes `data` under the given event name.
pub fn log_event(event: &str, data: &AgentData) -> (r: String)
    ensures
        r@ == event_log_line(event@, data@),
{
    let mut out = "EVENT_JSON:{\"standard\":\"nearai\",\"version\":\"0.1.19\",\"event\":".to_owned();
    append_json_string(&mut out, event);
    out.append(",\"data\":[");
    append_agent_data(&mut out, data);
    out.append("]}");
    proof {
        assert(out@ =~= event_log_line(event@, data@));
    }
    out
}

/// Builds the "run_agent" log line that asks the external agent to resolve;
/// every optional payload field is left empty.
pub fn run_agent(message: &str, agent: &str, signer_id: &str) -> (r: String)
    ensures
        r@ == event_log_line("run_agent"@, agent_payload(message@, agent@, signer_id@)),
{
    let data = AgentData {
        message: message.to_owned(),
        agent: agent.to_owned(),
        env_vars: Option::None,
        request_id: Option::None,
        max_iterations: Option::None,
        thread_id: Option::None,
        signer_id: signer_id.to_owned(),
        referral_id: Option::None,
    };
    let r = log_event("run_agent", &data);
    proof {
        assert(data@ == agent_payload(message@, agent@, signer_id@));
    }
    r
}

} // verus!
