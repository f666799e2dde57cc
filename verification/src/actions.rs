//! Control signals that accompany the content of a turn event.

use vstd::prelude::*;
use crate::auth::{
    lemma_requested_auth_configs_reads_back, RequestedAuthConfigs, RequestedAuthConfigsView,
};
use crate::error::{lift, DecodeError};
use crate::json::{find, Json, JsonView, Members};
use crate::record::{
    as_i32, each, get_opt_flag, get_opt_text, i32_json, i32_of, i32_to_json, keyed, maybe, opt,
    opt_flag, opt_flag_json, opt_text, opt_text_json, push_members, push_opt_flag, push_opt_json,
    push_opt_text, put_opt, read_each, write_each, group_members, lemma_each_reads_back,
};

verus! {

/// Changes to the session's state: an open mapping from names to values.
#[derive(Clone, Debug, PartialEq)]
pub struct StateDelta {
    pub additional_props: Vec<(String, Json)>,
}

/// The model of [`StateDelta`].
pub struct StateDeltaView {
    pub additional_props: Members,
}

impl View for StateDelta {
    type V = StateDeltaView;

    open spec fn view(&self) -> StateDeltaView {
        StateDeltaView { additional_props: self.additional_props.deep_view() }
    }
}

impl DeepView for StateDelta {
    type V = StateDeltaView;

    open spec fn deep_view(&self) -> StateDeltaView {
        self@
    }
}

impl StateDeltaView {
    /// The changes that a wire value holds: every member of the object, as
    /// it is.
    pub open spec fn read(j: JsonView) -> Result<StateDeltaView, DecodeError> {
        match j {
            JsonView::Object(m) => Ok(StateDeltaView { additional_props: m }),
            _ => Err(DecodeError::NotAnObject),
        }
    }

    /// The wire form: an object of the same members.
    pub open spec fn wire(self) -> JsonView {
        JsonView::Object(self.additional_props)
    }
}

impl StateDelta {
    /// Reads a wire value as changes of state.
    pub fn decode(j: &Json) -> (r: Result<StateDelta, DecodeError>)
        ensures
            lift(r) == StateDeltaView::read(j@),
    {
        let m = match j.as_object() {
            Some(m) => m,
            None => {
                return Err(DecodeError::NotAnObject);
            },
        };
        let mut additional_props: Vec<(String, Json)> = Vec::new();
        assert(additional_props.deep_view() =~= Seq::<(Seq<char>, JsonView)>::empty());
        push_members(&mut additional_props, m);
        assert(additional_props.deep_view() =~= m.deep_view());
        Ok(StateDelta { additional_props })
    }

    /// Writes the changes in their wire form.
    pub fn encode(&self) -> (r: Json)
        ensures
            r@ == self@.wire(),
    {
        let mut m: Vec<(String, Json)> = Vec::new();
        assert(m.deep_view() =~= Seq::<(Seq<char>, JsonView)>::empty());
        push_members(&mut m, &self.additional_props);
        assert(m.deep_view() =~= self.additional_props.deep_view());
        Json::object(m)
    }
}

/// Every [`StateDelta`] is read back from its wire form.
pub proof fn lemma_state_delta_reads_back(record: StateDeltaView)
    ensures
        StateDeltaView::read(record.wire()) == Ok::<StateDeltaView, DecodeError>(record),
{
}

/// Changes to the session's artifacts: an open mapping from names to
/// versions.
#[derive(Clone, Debug, PartialEq)]
pub struct ArtifactDelta {
    pub additional_props: Vec<(String, i32)>,
}

/// The model of [`ArtifactDelta`].
pub struct ArtifactDeltaView {
    pub additional_props: Seq<(Seq<char>, i32)>,
}

impl View for ArtifactDelta {
    type V = ArtifactDeltaView;

    open spec fn view(&self) -> ArtifactDeltaView {
        ArtifactDeltaView { additional_props: self.additional_props.deep_view() }
    }
}

impl DeepView for ArtifactDelta {
    type V = ArtifactDeltaView;

    open spec fn deep_view(&self) -> ArtifactDeltaView {
        self@
    }
}

impl ArtifactDeltaView {
    /// The changes that a wire value holds: every member of the object must
    /// hold a whole number of 32 signed bits.
    pub open spec fn read(j: JsonView) -> Result<ArtifactDeltaView, DecodeError> {
        match j {
            JsonView::Object(m) => match each(m, |x: JsonView| as_i32(x)) {
                Ok(additional_props) => Ok(ArtifactDeltaView { additional_props }),
                Err(e) => Err(e),
            },
            _ => Err(DecodeError::NotAnObject),
        }
    }

    /// The wire form: an object with one number for each name.
    pub open spec fn wire(self) -> JsonView {
        JsonView::Object(keyed(self.additional_props, |i: i32| i32_json(i)))
    }
}

impl ArtifactDelta {
    /// Reads a wire value as changes of artifacts.
    pub fn decode(j: &Json) -> (r: Result<ArtifactDelta, DecodeError>)
        ensures
            lift(r) == ArtifactDeltaView::read(j@),
    {
        let m = match j.as_object() {
            Some(m) => m,
            None => {
                return Err(DecodeError::NotAnObject);
            },
        };
        let additional_props = read_each(m, i32_of, Ghost(|x: JsonView| as_i32(x)))?;
        Ok(ArtifactDelta { additional_props })
    }

    /// Writes the changes in their wire form.
    pub fn encode(&self) -> (r: Json)
        ensures
            r@ == self@.wire(),
    {
        let m = write_each(&self.additional_props, i32_to_json, Ghost(|i: i32| i32_json(i)));
        Json::object(m)
    }
}

/// Every [`ArtifactDelta`] is read back from its wire form.
pub proof fn lemma_artifact_delta_reads_back(record: ArtifactDeltaView)
    ensures
        ArtifactDeltaView::read(record.wire()) == Ok::<ArtifactDeltaView, DecodeError>(record),
{
    lemma_each_reads_back(record.additional_props, |i: i32| i32_json(i), |x: JsonView| as_i32(x));
}

/// The control signals of one turn event. Each is optional.
#[derive(Clone, Debug, PartialEq)]
pub struct Actions {
    pub skip_summarization: Option<bool>,
    pub state_delta: Option<StateDelta>,
    pub artifact_delta: Option<ArtifactDelta>,
    pub transfer_to_agent: Option<String>,
    pub escalate: Option<bool>,
    pub requested_auth_configs: Option<RequestedAuthConfigs>,
}

/// The model of [`Actions`].
pub struct ActionsView {
    pub skip_summarization: Option<bool>,
    pub state_delta: Option<StateDeltaView>,
    pub artifact_delta: Option<ArtifactDeltaView>,
    pub transfer_to_agent: Option<Seq<char>>,
    pub escalate: Option<bool>,
    pub requested_auth_configs: Option<RequestedAuthConfigsView>,
}

impl View for Actions {
    type V = ActionsView;

    open spec fn view(&self) -> ActionsView {
        ActionsView {
            skip_summarization: self.skip_summarization,
            state_delta: self.state_delta.deep_view(),
            artifact_delta: self.artifact_delta.deep_view(),
            transfer_to_agent: self.transfer_to_agent.deep_view(),
            escalate: self.escalate,
            requested_auth_configs: self.requested_auth_configs.deep_view(),
        }
    }
}

impl DeepView for Actions {
    type V = ActionsView;

    open spec fn deep_view(&self) -> ActionsView {
        self@
    }
}

impl ActionsView {
    /// The record that an object's members hold. The fields are read in
    /// the order in which the record lists them, and the first that
    /// cannot be read fails the record with its error.
    pub open spec fn read_members(m: Members) -> Result<ActionsView, DecodeError> {
        let skip_summarization = opt_flag(m, "skipSummarization"@, "skip_summarization"@);
        let state_delta = opt(
            m,
            "stateDelta"@,
            "state_delta"@,
            |x: JsonView| StateDeltaView::read(x),
        );
        let artifact_delta = opt(
            m,
            "artifactDelta"@,
            "artifact_delta"@,
            |x: JsonView| ArtifactDeltaView::read(x),
        );
        let transfer_to_agent = opt_text(m, "transferToAgent"@, "transfer_to_agent"@);
        let escalate = opt_flag(m, "escalate"@, "escalate"@);
        let requested_auth_configs = opt(
            m,
            "requestedAuthConfigs"@,
            "requested_auth_configs"@,
            |x: JsonView| RequestedAuthConfigsView::read(x),
        );
        if skip_summarization is Err {
            Err(skip_summarization->Err_0)
        } else if state_delta is Err {
            Err(state_delta->Err_0)
        } else if artifact_delta is Err {
            Err(artifact_delta->Err_0)
        } else if transfer_to_agent is Err {
            Err(transfer_to_agent->Err_0)
        } else if escalate is Err {
            Err(escalate->Err_0)
        } else if requested_auth_configs is Err {
            Err(requested_auth_configs->Err_0)
        } else {
            Ok(
                ActionsView {
                    skip_summarization: skip_summarization->Ok_0,
                    state_delta: state_delta->Ok_0,
                    artifact_delta: artifact_delta->Ok_0,
                    transfer_to_agent: transfer_to_agent->Ok_0,
                    escalate: escalate->Ok_0,
                    requested_auth_configs: requested_auth_configs->Ok_0,
                },
            )
        }
    }

    /// The record that a wire value holds.
    pub open spec fn read(j: JsonView) -> Result<ActionsView, DecodeError> {
        match j {
            JsonView::Object(m) => ActionsView::read_members(m),
            _ => Err(DecodeError::NotAnObject),
        }
    }

    /// The members of the wire form, in the order of the fields. A field
    /// that holds nothing is left out.
    pub open spec fn wire_members(self) -> Members {
        Seq::<(Seq<char>, JsonView)>::empty()
            + put_opt("skipSummarization"@, opt_flag_json(self.skip_summarization))
            + put_opt(
                "stateDelta"@,
                match self.state_delta {
                    Some(t) => Some(t.wire()),
                    None => None,
                },
            )
            + put_opt(
                "artifactDelta"@,
                match self.artifact_delta {
                    Some(t) => Some(t.wire()),
                    None => None,
                },
            )
            + put_opt("transferToAgent"@, opt_text_json(self.transfer_to_agent))
            + put_opt("escalate"@, opt_flag_json(self.escalate))
            + put_opt(
                "requestedAuthConfigs"@,
                match self.requested_auth_configs {
                    Some(t) => Some(t.wire()),
                    None => None,
                },
            )
    }

    /// The wire form of the record.
    pub open spec fn wire(self) -> JsonView {
        JsonView::Object(self.wire_members())
    }
}

impl Actions {
    /// Reads a wire value as this record.
    pub fn decode(j: &Json) -> (r: Result<Actions, DecodeError>)
        ensures
            lift(r) == ActionsView::read(j@),
    {
        let m = match j.as_object() {
            Some(m) => m,
            None => {
                return Err(DecodeError::NotAnObject);
            },
        };
        let skip_summarization = get_opt_flag(m, "skipSummarization", "skip_summarization")?;
        let state_delta = match maybe(m, "stateDelta", "state_delta") {
            Some(v) => Some(StateDelta::decode(v)?),
            None => None,
        };
        let artifact_delta = match maybe(m, "artifactDelta", "artifact_delta") {
            Some(v) => Some(ArtifactDelta::decode(v)?),
            None => None,
        };
        let transfer_to_agent = get_opt_text(m, "transferToAgent", "transfer_to_agent")?;
        let escalate = get_opt_flag(m, "escalate", "escalate")?;
        let requested_auth_configs = match maybe(m, "requestedAuthConfigs", "requested_auth_configs") {
            Some(v) => Some(RequestedAuthConfigs::decode(v)?),
            None => None,
        };
        Ok(
            Actions {
                skip_summarization,
                state_delta,
                artifact_delta,
                transfer_to_agent,
                escalate,
                requested_auth_configs,
            },
        )
    }

    /// Writes this record in its wire form.
    pub fn encode(&self) -> (r: Json)
        ensures
            r@ == self@.wire(),
    {
        let mut m: Vec<(String, Json)> = Vec::new();
        assert(m.deep_view() =~= Seq::<(Seq<char>, JsonView)>::empty());
        push_opt_flag(&mut m, "skipSummarization", &self.skip_summarization);
        push_opt_json(
            &mut m,
            "stateDelta",
            match &self.state_delta {
                Some(t) => Some(t.encode()),
                None => None,
            },
        );
        push_opt_json(
            &mut m,
            "artifactDelta",
            match &self.artifact_delta {
                Some(t) => Some(t.encode()),
                None => None,
            },
        );
        push_opt_text(&mut m, "transferToAgent", &self.transfer_to_agent);
        push_opt_flag(&mut m, "escalate", &self.escalate);
        push_opt_json(
            &mut m,
            "requestedAuthConfigs",
            match &self.requested_auth_configs {
                Some(t) => Some(t.encode()),
                None => None,
            },
        );
        Json::object(m)
    }
}

impl ActionsView {
    /// Whether the record is one that its wire form gives back:
    /// the records it holds are canonical.
    pub open spec fn canonical(self) -> bool {
        &&& (self.requested_auth_configs is Some ==> self.requested_auth_configs->0.canonical())
    }
}

/// A canonical [`Actions`] is read back from its wire form.
pub proof fn lemma_actions_reads_back(record: ActionsView)
    requires
        record.canonical(),
    ensures
        ActionsView::read(record.wire()) == Ok::<ActionsView, DecodeError>(record),
{
    broadcast use group_members;
    reveal_strlit("skipSummarization");
    reveal_strlit("skip_summarization");
    reveal_strlit("stateDelta");
    reveal_strlit("state_delta");
    reveal_strlit("artifactDelta");
    reveal_strlit("artifact_delta");
    reveal_strlit("transferToAgent");
    reveal_strlit("transfer_to_agent");
    reveal_strlit("escalate");
    reveal_strlit("requestedAuthConfigs");
    reveal_strlit("requested_auth_configs");
    assert("skipSummarization"@[1] == 'k');
    assert("stateDelta"@[1] == 't');
    assert("skipSummarization"@[0] == 's');
    assert("artifactDelta"@[0] == 'a');
    assert("transferToAgent"@[0] == 't');
    assert("escalate"@[0] == 'e');
    assert("requestedAuthConfigs"@[0] == 'r');
    assert("skip_summarization"@[4] == '_');
    assert("skipSummarization"@[4] == 'S');
    assert("skip_summarization"@[1] == 'k');
    assert("skip_summarization"@[0] == 's');
    assert("stateDelta"@[0] == 's');
    assert("state_delta"@[1] == 't');
    assert("state_delta"@[5] == '_');
    assert("stateDelta"@[5] == 'D');
    assert("state_delta"@[0] == 's');
    assert("artifact_delta"@[0] == 'a');
    assert("artifact_delta"@[8] == '_');
    assert("artifactDelta"@[8] == 'D');
    assert("transfer_to_agent"@[0] == 't');
    assert("transfer_to_agent"@[8] == '_');
    assert("transferToAgent"@[8] == 'T');
    assert("requested_auth_configs"@[0] == 'r');
    assert("requested_auth_configs"@[9] == '_');
    assert("requestedAuthConfigs"@[9] == 'A');
    let m = record.wire_members();
    assert(find(m, "skipSummarization"@) == opt_flag_json(record.skip_summarization));
    assert(find(m, "skip_summarization"@) is None);
    let skip_summarization = opt_flag(m, "skipSummarization"@, "skip_summarization"@);
    assert(skip_summarization == Ok::<Option<bool>, DecodeError>(record.skip_summarization));
    assert(
        find(m, "stateDelta"@) == (
            match record.state_delta { Some(t) => Some(t.wire()), None => None::<JsonView> }
        )
    );
    assert(find(m, "state_delta"@) is None);
    if record.state_delta is Some {
        lemma_state_delta_reads_back(record.state_delta->0);
    }
    let state_delta = opt(m, "stateDelta"@, "state_delta"@, |x: JsonView| StateDeltaView::read(x));
    assert(state_delta == Ok::<Option<StateDeltaView>, DecodeError>(record.state_delta));
    assert(
        find(m, "artifactDelta"@) == (
            match record.artifact_delta { Some(t) => Some(t.wire()), None => None::<JsonView> }
        )
    );
    assert(find(m, "artifact_delta"@) is None);
    if record.artifact_delta is Some {
        lemma_artifact_delta_reads_back(record.artifact_delta->0);
    }
    let artifact_delta = opt(
        m,
        "artifactDelta"@,
        "artifact_delta"@,
        |x: JsonView| ArtifactDeltaView::read(x),
    );
    assert(artifact_delta == Ok::<Option<ArtifactDeltaView>, DecodeError>(record.artifact_delta));
    assert(find(m, "transferToAgent"@) == opt_text_json(record.transfer_to_agent));
    assert(find(m, "transfer_to_agent"@) is None);
    let transfer_to_agent = opt_text(m, "transferToAgent"@, "transfer_to_agent"@);
    assert(transfer_to_agent == Ok::<Option<Seq<char>>, DecodeError>(record.transfer_to_agent));
    assert(find(m, "escalate"@) == opt_flag_json(record.escalate));
    let escalate = opt_flag(m, "escalate"@, "escalate"@);
    assert(escalate == Ok::<Option<bool>, DecodeError>(record.escalate));
    assert(
        find(m, "requestedAuthConfigs"@) == (
            match record.requested_auth_configs {
                Some(t) => Some(t.wire()),
                None => None::<JsonView>,
            }
        )
    );
    assert(find(m, "requested_auth_configs"@) is None);
    if record.requested_auth_configs is Some {
        lemma_requested_auth_configs_reads_back(record.requested_auth_configs->0);
    }
    let requested_auth_configs = opt(
        m,
        "requestedAuthConfigs"@,
        "requested_auth_configs"@,
        |x: JsonView| RequestedAuthConfigsView::read(x),
    );
    assert(requested_auth_configs == Ok::<
        Option<RequestedAuthConfigsView>,
        DecodeError,
    >(record.requested_auth_configs));
    assert(ActionsView::read_members(m) == Ok::<ActionsView, DecodeError>(record));
}
} // verus!
