use crate::api::binary32::Binary32;
use crate::api::models::{
    InputType, PromptTemplate, ReasoningConfig, ResponseRequest, TextConfig, ToolChoice,
};
use vstd::prelude::*;

verus! {

/// The fields of a request.
#[derive(Debug, Clone, Copy, PartialEq, Eq, Structural)]
pub enum Field {
    Model,
    Input,
    Instructions,
    MaxOutputTokens,
    Temperature,
    TopP,
    TopLogprobs,
    Background,
    Stream,
    Store,
    ParallelToolCalls,
    ServiceTier,
    Truncation,
    User,
    PreviousResponseId,
    Tools,
    ToolChoice,
    MaxToolCalls,
    Prompt,
    Reasoning,
    Text,
    Includes,
    Metadata,
}

/// One write to a request, as one call of a setter of the builder makes it:
/// the value written, under the name of the setter. It is also how a field
/// that is set goes over the wire: as one member, with this value.
#[derive(Debug)]
pub enum Setting {
    Model(String),
    InputText(String),
    InputArray(Vec<serde_json::Value>),
    Instructions(String),
    MaxOutputTokens(u32),
    Temperature(Binary32),
    TopP(Binary32),
    TopLogprobs(u32),
    Background(bool),
    Stream(bool),
    Store(bool),
    ParallelToolCalls(bool),
    ServiceTier(String),
    Truncation(String),
    User(String),
    PreviousResponseId(String),
    Tools(Vec<serde_json::Value>),
    ToolChoiceString(String),
    ToolChoiceObject(serde_json::Value),
    MaxToolCalls(u32),
    PromptTemplate(PromptTemplate),
    ReasoningConfig(ReasoningConfig),
    TextConfig(TextConfig),
    Includes(Vec<String>),
    Metadata(serde_json::Value),
}

impl Field {
    /// Every field, in the order in which the fields go over the wire.
    pub open spec fn all() -> Seq<Field> {
        seq![
            Field::Model,
            Field::Input,
            Field::Instructions,
            Field::MaxOutputTokens,
            Field::Temperature,
            Field::TopP,
            Field::TopLogprobs,
            Field::Background,
            Field::Stream,
            Field::Store,
            Field::ParallelToolCalls,
            Field::ServiceTier,
            Field::Truncation,
            Field::User,
            Field::PreviousResponseId,
            Field::Tools,
            Field::ToolChoice,
            Field::MaxToolCalls,
            Field::Prompt,
            Field::Reasoning,
            Field::Text,
            Field::Includes,
            Field::Metadata,
        ]
    }

    /// The name under which the field goes over the wire.
    pub open spec fn name(self) -> Seq<char> {
        match self {
            Field::Model => "model"@,
            Field::Input => "input"@,
            Field::Instructions => "instructions"@,
            Field::MaxOutputTokens => "max_output_tokens"@,
            Field::Temperature => "temperature"@,
            Field::TopP => "top_p"@,
            Field::TopLogprobs => "top_logprobs"@,
            Field::Background => "background"@,
            Field::Stream => "stream"@,
            Field::Store => "store"@,
            Field::ParallelToolCalls => "parallel_tool_calls"@,
            Field::ServiceTier => "service_tier"@,
            Field::Truncation => "truncation"@,
            Field::User => "user"@,
            Field::PreviousResponseId => "previous_response_id"@,
            Field::Tools => "tools"@,
            Field::ToolChoice => "tool_choice"@,
            Field::MaxToolCalls => "max_tool_calls"@,
            Field::Prompt => "prompt"@,
            Field::Reasoning => "reasoning"@,
            Field::Text => "text"@,
            Field::Includes => "include"@,
            Field::Metadata => "metadata"@,
        }
    }

    /// The name under which the field goes over the wire.
    pub fn wire_name(self) -> (name: &'static str)
        ensures
            name@ == self.name(),
    {
        match self {
            Field::Model => "model",
            Field::Input => "input",
            Field::Instructions => "instructions",
            Field::MaxOutputTokens => "max_output_tokens",
            Field::Temperature => "temperature",
            Field::TopP => "top_p",
            Field::TopLogprobs => "top_logprobs",
            Field::Background => "background",
            Field::Stream => "stream",
            Field::Store => "store",
            Field::ParallelToolCalls => "parallel_tool_calls",
            Field::ServiceTier => "service_tier",
            Field::Truncation => "truncation",
            Field::User => "user",
            Field::PreviousResponseId => "previous_response_id",
            Field::Tools => "tools",
            Field::ToolChoice => "tool_choice",
            Field::MaxToolCalls => "max_tool_calls",
            Field::Prompt => "prompt",
            Field::Reasoning => "reasoning",
            Field::Text => "text",
            Field::Includes => "include",
            Field::Metadata => "metadata",
        }
    }
}

/// The length of a name with its first and its third character: enough to
/// tell the names of the fields apart.
spec fn mark(name: Seq<char>) -> (nat, char, char) {
    (name.len(), name[0], name[2])
}

proof fn lemma_marks()
    ensures
        mark(Field::Model.name()) == (5nat, 'm', 'd'),
        mark(Field::Input.name()) == (5nat, 'i', 'p'),
        mark(Field::Instructions.name()) == (12nat, 'i', 's'),
        mark(Field::MaxOutputTokens.name()) == (17nat, 'm', 'x'),
        mark(Field::Temperature.name()) == (11nat, 't', 'm'),
        mark(Field::TopP.name()) == (5nat, 't', 'p'),
        mark(Field::TopLogprobs.name()) == (12nat, 't', 'p'),
        mark(Field::Background.name()) == (10nat, 'b', 'c'),
        mark(Field::Stream.name()) == (6nat, 's', 'r'),
        mark(Field::Store.name()) == (5nat, 's', 'o'),
        mark(Field::ParallelToolCalls.name()) == (19nat, 'p', 'r'),
        mark(Field::ServiceTier.name()) == (12nat, 's', 'r'),
        mark(Field::Truncation.name()) == (10nat, 't', 'u'),
        mark(Field::User.name()) == (4nat, 'u', 'e'),
        mark(Field::PreviousResponseId.name()) == (20nat, 'p', 'e'),
        mark(Field::Tools.name()) == (5nat, 't', 'o'),
        mark(Field::ToolChoice.name()) == (11nat, 't', 'o'),
        mark(Field::MaxToolCalls.name()) == (14nat, 'm', 'x'),
        mark(Field::Prompt.name()) == (6nat, 'p', 'o'),
        mark(Field::Reasoning.name()) == (9nat, 'r', 'a'),
        mark(Field::Text.name()) == (4nat, 't', 'x'),
        mark(Field::Includes.name()) == (7nat, 'i', 'c'),
        mark(Field::Metadata.name()) == (8nat, 'm', 't'),
{
    reveal_strlit("model");
    reveal_strlit("input");
    reveal_strlit("instructions");
    reveal_strlit("max_output_tokens");
    reveal_strlit("temperature");
    reveal_strlit("top_p");
    reveal_strlit("top_logprobs");
    reveal_strlit("background");
    reveal_strlit("stream");
    reveal_strlit("store");
    reveal_strlit("parallel_tool_calls");
    reveal_strlit("service_tier");
    reveal_strlit("truncation");
    reveal_strlit("user");
    reveal_strlit("previous_response_id");
    reveal_strlit("tools");
    reveal_strlit("tool_choice");
    reveal_strlit("max_tool_calls");
    reveal_strlit("prompt");
    reveal_strlit("reasoning");
    reveal_strlit("text");
    reveal_strlit("include");
    reveal_strlit("metadata");
}

/// No two fields go under one name.
pub proof fn law_names_are_distinct(one: Field, other: Field)
    requires
        one != other,
    ensures
        one.name() != other.name(),
{
    lemma_marks();
}

impl Setting {
    /// The field that the write goes to.
    pub open spec fn field(self) -> Field {
        match self {
            Setting::Model(_) => Field::Model,
            Setting::InputText(_) => Field::Input,
            Setting::InputArray(_) => Field::Input,
            Setting::Instructions(_) => Field::Instructions,
            Setting::MaxOutputTokens(_) => Field::MaxOutputTokens,
            Setting::Temperature(_) => Field::Temperature,
            Setting::TopP(_) => Field::TopP,
            Setting::TopLogprobs(_) => Field::TopLogprobs,
            Setting::Background(_) => Field::Background,
            Setting::Stream(_) => Field::Stream,
            Setting::Store(_) => Field::Store,
            Setting::ParallelToolCalls(_) => Field::ParallelToolCalls,
            Setting::ServiceTier(_) => Field::ServiceTier,
            Setting::Truncation(_) => Field::Truncation,
            Setting::User(_) => Field::User,
            Setting::PreviousResponseId(_) => Field::PreviousResponseId,
            Setting::Tools(_) => Field::Tools,
            Setting::ToolChoiceString(_) => Field::ToolChoice,
            Setting::ToolChoiceObject(_) => Field::ToolChoice,
            Setting::MaxToolCalls(_) => Field::MaxToolCalls,
            Setting::PromptTemplate(_) => Field::Prompt,
            Setting::ReasoningConfig(_) => Field::Reasoning,
            Setting::TextConfig(_) => Field::Text,
            Setting::Includes(_) => Field::Includes,
            Setting::Metadata(_) => Field::Metadata,
        }
    }

    /// The request after the write: the one field holds the value written,
    /// and every other field is as it was.
    pub open spec fn applied(self, request: ResponseRequest) -> ResponseRequest {
        match self {
            Setting::Model(v) => ResponseRequest { model: Some(v), ..request },
            Setting::InputText(v) => ResponseRequest { input: Some(InputType::Text(v)), ..request },
            Setting::InputArray(v) => ResponseRequest { input: Some(InputType::Array(v)), ..request },
            Setting::Instructions(v) => ResponseRequest { instructions: Some(v), ..request },
            Setting::MaxOutputTokens(v) => ResponseRequest { max_output_tokens: Some(v), ..request },
            Setting::Temperature(v) => ResponseRequest { temperature: Some(v), ..request },
            Setting::TopP(v) => ResponseRequest { top_p: Some(v), ..request },
            Setting::TopLogprobs(v) => ResponseRequest { top_logprobs: Some(v), ..request },
            Setting::Background(v) => ResponseRequest { background: Some(v), ..request },
            Setting::Stream(v) => ResponseRequest { stream: Some(v), ..request },
            Setting::Store(v) => ResponseRequest { store: Some(v), ..request },
            Setting::ParallelToolCalls(v) => ResponseRequest { parallel_tool_calls: Some(v), ..request },
            Setting::ServiceTier(v) => ResponseRequest { service_tier: Some(v), ..request },
            Setting::Truncation(v) => ResponseRequest { truncation: Some(v), ..request },
            Setting::User(v) => ResponseRequest { user: Some(v), ..request },
            Setting::PreviousResponseId(v) => ResponseRequest { previous_response_id: Some(v), ..request },
            Setting::Tools(v) => ResponseRequest { tools: Some(v), ..request },
            Setting::ToolChoiceString(v) => ResponseRequest { tool_choice: Some(ToolChoice::String(v)), ..request },
            Setting::ToolChoiceObject(v) => ResponseRequest { tool_choice: Some(ToolChoice::Object(v)), ..request },
            Setting::MaxToolCalls(v) => ResponseRequest { max_tool_calls: Some(v), ..request },
            Setting::PromptTemplate(v) => ResponseRequest { prompt: Some(v), ..request },
            Setting::ReasoningConfig(v) => ResponseRequest { reasoning: Some(v), ..request },
            Setting::TextConfig(v) => ResponseRequest { text: Some(v), ..request },
            Setting::Includes(v) => ResponseRequest { includes: Some(v), ..request },
            Setting::Metadata(v) => ResponseRequest { metadata: Some(v), ..request },
        }
    }

    /// The field that the value belongs to.
    pub fn target(&self) -> (field: Field)
        ensures
            field == self.field(),
    {
        match self {
            Setting::Model(_) => Field::Model,
            Setting::InputText(_) => Field::Input,
            Setting::InputArray(_) => Field::Input,
            Setting::Instructions(_) => Field::Instructions,
            Setting::MaxOutputTokens(_) => Field::MaxOutputTokens,
            Setting::Temperature(_) => Field::Temperature,
            Setting::TopP(_) => Field::TopP,
            Setting::TopLogprobs(_) => Field::TopLogprobs,
            Setting::Background(_) => Field::Background,
            Setting::Stream(_) => Field::Stream,
            Setting::Store(_) => Field::Store,
            Setting::ParallelToolCalls(_) => Field::ParallelToolCalls,
            Setting::ServiceTier(_) => Field::ServiceTier,
            Setting::Truncation(_) => Field::Truncation,
            Setting::User(_) => Field::User,
            Setting::PreviousResponseId(_) => Field::PreviousResponseId,
            Setting::Tools(_) => Field::Tools,
            Setting::ToolChoiceString(_) => Field::ToolChoice,
            Setting::ToolChoiceObject(_) => Field::ToolChoice,
            Setting::MaxToolCalls(_) => Field::MaxToolCalls,
            Setting::PromptTemplate(_) => Field::Prompt,
            Setting::ReasoningConfig(_) => Field::Reasoning,
            Setting::TextConfig(_) => Field::Text,
            Setting::Includes(_) => Field::Includes,
            Setting::Metadata(_) => Field::Metadata,
        }
    }
}

/// The members that the fields of `fields` give, in that order: one for each
/// field that is set, none for a field that is absent.
pub open spec fn members_of(request: ResponseRequest, fields: Seq<Field>) -> Seq<Setting>
    decreases fields.len(),
{
    if fields.len() == 0 {
        Seq::empty()
    } else {
        let earlier = members_of(request, fields.drop_last());
        match request.slot(fields.last()) {
            Some(member) => earlier.push(member),
            None => earlier,
        }
    }
}

/// The members of the first `count + 1` fields are those of the first `count`
/// and then the member of the next field, if that one is set.
proof fn lemma_next_member(request: ResponseRequest, fields: Seq<Field>, count: int)
    requires
        0 <= count < fields.len(),
    ensures
        members_of(request, fields.take(count + 1)) == match request.slot(fields[count]) {
            Some(member) => members_of(request, fields.take(count)).push(member),
            None => members_of(request, fields.take(count)),
        },
{
    assert(fields.take(count + 1).drop_last() =~= fields.take(count));
}

/// Puts the member of the next field, if there is one, at the end of the
/// members of the fields before it.
fn push_member(
    members: &mut Vec<Setting>,
    member: Option<Setting>,
    Ghost(request): Ghost<ResponseRequest>,
    Ghost(count): Ghost<int>,
)
    requires
        0 <= count < Field::all().len(),
        old(members)@ == members_of(request, Field::all().take(count)),
        member == request.slot(Field::all()[count]),
    ensures
        final(members)@ == members_of(request, Field::all().take(count + 1)),
{
    proof {
        lemma_next_member(request, Field::all(), count);
    }
    if let Some(member) = member {
        members.push(member);
    }
}

impl ResponseRequest {
    /// What a field holds, as the write that puts it there, or `None` where
    /// the field is absent.
    pub open spec fn slot(self, field: Field) -> Option<Setting> {
        match field {
            Field::Model => match self.model {
                Some(v) => Some(Setting::Model(v)),
                None => None,
            },
            Field::Input => match self.input {
                Some(InputType::Text(v)) => Some(Setting::InputText(v)),
                Some(InputType::Array(v)) => Some(Setting::InputArray(v)),
                None => None,
            },
            Field::Instructions => match self.instructions {
                Some(v) => Some(Setting::Instructions(v)),
                None => None,
            },
            Field::MaxOutputTokens => match self.max_output_tokens {
                Some(v) => Some(Setting::MaxOutputTokens(v)),
                None => None,
            },
            Field::Temperature => match self.temperature {
                Some(v) => Some(Setting::Temperature(v)),
                None => None,
            },
            Field::TopP => match self.top_p {
                Some(v) => Some(Setting::TopP(v)),
                None => None,
            },
            Field::TopLogprobs => match self.top_logprobs {
                Some(v) => Some(Setting::TopLogprobs(v)),
                None => None,
            },
            Field::Background => match self.background {
                Some(v) => Some(Setting::Background(v)),
                None => None,
            },
            Field::Stream => match self.stream {
                Some(v) => Some(Setting::Stream(v)),
                None => None,
            },
            Field::Store => match self.store {
                Some(v) => Some(Setting::Store(v)),
                None => None,
            },
            Field::ParallelToolCalls => match self.parallel_tool_calls {
                Some(v) => Some(Setting::ParallelToolCalls(v)),
                None => None,
            },
            Field::ServiceTier => match self.service_tier {
                Some(v) => Some(Setting::ServiceTier(v)),
                None => None,
            },
            Field::Truncation => match self.truncation {
                Some(v) => Some(Setting::Truncation(v)),
                None => None,
            },
            Field::User => match self.user {
                Some(v) => Some(Setting::User(v)),
                None => None,
            },
            Field::PreviousResponseId => match self.previous_response_id {
                Some(v) => Some(Setting::PreviousResponseId(v)),
                None => None,
            },
            Field::Tools => match self.tools {
                Some(v) => Some(Setting::Tools(v)),
                None => None,
            },
            Field::ToolChoice => match self.tool_choice {
                Some(ToolChoice::String(v)) => Some(Setting::ToolChoiceString(v)),
                Some(ToolChoice::Object(v)) => Some(Setting::ToolChoiceObject(v)),
                None => None,
            },
            Field::MaxToolCalls => match self.max_tool_calls {
                Some(v) => Some(Setting::MaxToolCalls(v)),
                None => None,
            },
            Field::Prompt => match self.prompt {
                Some(v) => Some(Setting::PromptTemplate(v)),
                None => None,
            },
            Field::Reasoning => match self.reasoning {
                Some(v) => Some(Setting::ReasoningConfig(v)),
                None => None,
            },
            Field::Text => match self.text {
                Some(v) => Some(Setting::TextConfig(v)),
                None => None,
            },
            Field::Includes => match self.includes {
                Some(v) => Some(Setting::Includes(v)),
                None => None,
            },
            Field::Metadata => match self.metadata {
                Some(v) => Some(Setting::Metadata(v)),
                None => None,
            },
        }
    }

    /// The request that a builder holds after the given writes, in order,
    /// from its starting state.
    pub open spec fn built(writes: Seq<Setting>) -> ResponseRequest
        decreases writes.len(),
    {
        if writes.len() == 0 {
            Self::fresh()
        } else {
            writes.last().applied(Self::built(writes.drop_last()))
        }
    }

    /// The members of the request on the wire: one for each field that is
    /// set, in the order of the fields, and none for a field that is absent.
    pub open spec fn members(self) -> Seq<Setting> {
        members_of(self, Field::all())
    }

    /// Takes the request apart into its members on the wire.
    pub fn into_members(self) -> (members: Vec<Setting>)
        ensures
            members@ == self.members(),
    {
        let ghost request = self;
        let mut members: Vec<Setting> = Vec::new();
        let member = match self.model {
            Some(v) => Some(Setting::Model(v)),
            None => None,
        };
        push_member(&mut members, member, Ghost(request), Ghost(0));
        let member = match self.input {
            Some(InputType::Text(v)) => Some(Setting::InputText(v)),
            Some(InputType::Array(v)) => Some(Setting::InputArray(v)),
            None => None,
        };
        push_member(&mut members, member, Ghost(request), Ghost(1));
        let member = match self.instructions {
            Some(v) => Some(Setting::Instructions(v)),
            None => None,
        };
        push_member(&mut members, member, Ghost(request), Ghost(2));
        let member = match self.max_output_tokens {
            Some(v) => Some(Setting::MaxOutputTokens(v)),
            None => None,
        };
        push_member(&mut members, member, Ghost(request), Ghost(3));
        let member = match self.temperature {
            Some(v) => Some(Setting::Temperature(v)),
            None => None,
        };
        push_member(&mut members, member, Ghost(request), Ghost(4));
        let member = match self.top_p {
            Some(v) => Some(Setting::TopP(v)),
            None => None,
        };
        push_member(&mut members, member, Ghost(request), Ghost(5));
        let member = match self.top_logprobs {
            Some(v) => Some(Setting::TopLogprobs(v)),
            None => None,
        };
        push_member(&mut members, member, Ghost(request), Ghost(6));
        let member = match self.background {
            Some(v) => Some(Setting::Background(v)),
            None => None,
        };
        push_member(&mut members, member, Ghost(request), Ghost(7));
        let member = match self.stream {
            Some(v) => Some(Setting::Stream(v)),
            None => None,
        };
        push_member(&mut members, member, Ghost(request), Ghost(8));
        let member = match self.store {
            Some(v) => Some(Setting::Store(v)),
            None => None,
        };
        push_member(&mut members, member, Ghost(request), Ghost(9));
        let member = match self.parallel_tool_calls {
            Some(v) => Some(Setting::ParallelToolCalls(v)),
            None => None,
        };
        push_member(&mut members, member, Ghost(request), Ghost(10));
        let member = match self.service_tier {
            Some(v) => Some(Setting::ServiceTier(v)),
            None => None,
        };
        push_member(&mut members, member, Ghost(request), Ghost(11));
        let member = match self.truncation {
            Some(v) => Some(Setting::Truncation(v)),
            None => None,
        };
        push_member(&mut members, member, Ghost(request), Ghost(12));
        let member = match self.user {
            Some(v) => Some(Setting::User(v)),
            None => None,
        };
        push_member(&mut members, member, Ghost(request), Ghost(13));
        let member = match self.previous_response_id {
            Some(v) => Some(Setting::PreviousResponseId(v)),
            None => None,
        };
        push_member(&mut members, member, Ghost(request), Ghost(14));
        let member = match self.tools {
            Some(v) => Some(Setting::Tools(v)),
            None => None,
        };
        push_member(&mut members, member, Ghost(request), Ghost(15));
        let member = match self.tool_choice {
            Some(ToolChoice::String(v)) => Some(Setting::ToolChoiceString(v)),
            Some(ToolChoice::Object(v)) => Some(Setting::ToolChoiceObject(v)),
            None => None,
        };
        push_member(&mut members, member, Ghost(request), Ghost(16));
        let member = match self.max_tool_calls {
            Some(v) => Some(Setting::MaxToolCalls(v)),
            None => None,
        };
        push_member(&mut members, member, Ghost(request), Ghost(17));
        let member = match self.prompt {
            Some(v) => Some(Setting::PromptTemplate(v)),
            None => None,
        };
        push_member(&mut members, member, Ghost(request), Ghost(18));
        let member = match self.reasoning {
            Some(v) => Some(Setting::ReasoningConfig(v)),
            None => None,
        };
        push_member(&mut members, member, Ghost(request), Ghost(19));
        let member = match self.text {
            Some(v) => Some(Setting::TextConfig(v)),
            None => None,
        };
        push_member(&mut members, member, Ghost(request), Ghost(20));
        let member = match self.includes {
            Some(v) => Some(Setting::Includes(v)),
            None => None,
        };
        push_member(&mut members, member, Ghost(request), Ghost(21));
        let member = match self.metadata {
            Some(v) => Some(Setting::Metadata(v)),
            None => None,
        };
        push_member(&mut members, member, Ghost(request), Ghost(22));
        assert(Field::all().take(23) =~= Field::all());
        members
    }
}

/// The last of the writes that goes to the field, if any does.
pub open spec fn last_write(writes: Seq<Setting>, field: Field) -> Option<Setting>
    decreases writes.len(),
{
    if writes.len() == 0 {
        None
    } else if writes.last().field() == field {
        Some(writes.last())
    } else {
        last_write(writes.drop_last(), field)
    }
}

/// A write leaves its value in its field.
pub proof fn law_write_is_held(request: ResponseRequest, write: Setting)
    ensures
        write.applied(request).slot(write.field()) == Some(write),
{
}

/// A write leaves every field but its own as it was.
pub proof fn law_write_keeps_other_fields(request: ResponseRequest, write: Setting, field: Field)
    requires
        field != write.field(),
    ensures
        write.applied(request).slot(field) == request.slot(field),
{
}

/// Of two writes to one field the second wins: the first might as well not
/// have been made.
pub proof fn law_last_write_wins(request: ResponseRequest, first: Setting, second: Setting)
    requires
        first.field() == second.field(),
    ensures
        second.applied(first.applied(request)) == second.applied(request),
{
}

/// Writes to different fields can be made in either order.
pub proof fn law_writes_commute(request: ResponseRequest, one: Setting, other: Setting)
    requires
        one.field() != other.field(),
    ensures
        other.applied(one.applied(request)) == one.applied(other.applied(request)),
{
}

/// After any sequence of writes, a field that was written holds the last
/// value written to it, and a field that was never written is as a new
/// builder has it: `store` is true and every other field is absent.
pub proof fn law_built_request(writes: Seq<Setting>, field: Field)
    ensures
        ResponseRequest::built(writes).slot(field) == match last_write(writes, field) {
            Some(write) => Some(write),
            None => if field == Field::Store {
                Some(Setting::Store(true))
            } else {
                None
            },
        },
    decreases writes.len(),
{
    if writes.len() > 0 {
        law_built_request(writes.drop_last(), field);
    }
}

/// What a field holds is a value for that field.
pub proof fn law_slot_is_of_its_field(request: ResponseRequest, field: Field)
    ensures
        request.slot(field) matches Some(member) ==> member.field() == field,
{
}

/// The members that a list of fields gives are the values of those of the
/// fields that are set: each member is what its field holds, its field is in
/// the list, and every field of the list that is set has its member. Where
/// no field stands twice in the list, no two members are of one field.
proof fn lemma_members_of(request: ResponseRequest, fields: Seq<Field>)
    ensures
        forall|i: int|
            0 <= i < members_of(request, fields).len() ==> {
                let member = #[trigger] members_of(request, fields)[i];
                fields.contains(member.field()) && request.slot(member.field()) == Some(member)
            },
        forall|k: int|
            0 <= k < fields.len() && request.slot(#[trigger] fields[k]) is Some
                ==> members_of(request, fields).contains(request.slot(fields[k])->0),
        fields.no_duplicates() ==> forall|i: int, j: int|
            0 <= i < j < members_of(request, fields).len() ==> (#[trigger] members_of(
                request,
                fields,
            )[i]).field() != (#[trigger] members_of(request, fields)[j]).field(),
    decreases fields.len(),
{
    if fields.len() > 0 {
        let earlier_fields = fields.drop_last();
        let earlier = members_of(request, earlier_fields);
        let now = members_of(request, fields);
        lemma_members_of(request, earlier_fields);
        law_slot_is_of_its_field(request, fields.last());
        assert forall|i: int| 0 <= i < now.len() implies {
            let member = #[trigger] now[i];
            fields.contains(member.field()) && request.slot(member.field()) == Some(member)
        } by {
            if i < earlier.len() {
                let at = choose|at: int|
                    0 <= at < earlier_fields.len() && earlier_fields[at] == earlier[i].field();
                assert(fields[at] == earlier[i].field());
            } else {
                assert(fields[fields.len() - 1] == now[i].field());
            }
        }
        assert forall|k: int|
            0 <= k < fields.len() && request.slot(#[trigger] fields[k]) is Some implies now.contains(
            request.slot(fields[k])->0,
        ) by {
            if k < fields.len() - 1 {
                assert(earlier_fields[k] == fields[k]);
                let member = request.slot(fields[k])->0;
                let at = choose|at: int| 0 <= at < earlier.len() && earlier[at] == member;
                assert(now[at] == member);
            } else {
                assert(now[now.len() - 1] == request.slot(fields[k])->0);
            }
        }
        if fields.no_duplicates() {
            assert(earlier_fields.no_duplicates());
            assert forall|i: int, j: int| 0 <= i < j < now.len() implies (#[trigger] now[i]).field()
                != (#[trigger] now[j]).field() by {
                if j < earlier.len() {
                    assert(now[i] == earlier[i] && now[j] == earlier[j]);
                } else {
                    assert(now[i] == earlier[i]);
                    let at = choose|at: int|
                        0 <= at < earlier_fields.len() && earlier_fields[at] == earlier[i].field();
                    assert(fields[at] == earlier[i].field());
                    assert(fields[fields.len() - 1] == now[j].field());
                }
            }
        }
    }
}

/// The place of a field in the order of the wire.
spec fn place(field: Field) -> int {
    match field {
        Field::Model => 0,
        Field::Input => 1,
        Field::Instructions => 2,
        Field::MaxOutputTokens => 3,
        Field::Temperature => 4,
        Field::TopP => 5,
        Field::TopLogprobs => 6,
        Field::Background => 7,
        Field::Stream => 8,
        Field::Store => 9,
        Field::ParallelToolCalls => 10,
        Field::ServiceTier => 11,
        Field::Truncation => 12,
        Field::User => 13,
        Field::PreviousResponseId => 14,
        Field::Tools => 15,
        Field::ToolChoice => 16,
        Field::MaxToolCalls => 17,
        Field::Prompt => 18,
        Field::Reasoning => 19,
        Field::Text => 20,
        Field::Includes => 21,
        Field::Metadata => 22,
    }
}

/// No field stands twice in the list of all fields, and none is missing.
proof fn lemma_all_fields()
    ensures
        Field::all().no_duplicates(),
        forall|field: Field| Field::all().contains(field),
{
    let all = Field::all();
    assert forall|k: int| 0 <= k < all.len() implies place(#[trigger] all[k]) == k by {}
    assert forall|field: Field| all.contains(field) by {
        assert(all[place(field)] == field);
    }
}

/// On the wire a request has a member for a field exactly where the field is
/// set, and the member carries what the field holds. A field that is absent
/// has no member at all, and no field has two.
pub proof fn law_members_are_the_set_fields(request: ResponseRequest)
    ensures
        forall|i: int|
            0 <= i < request.members().len() ==> request.slot(
                (#[trigger] request.members()[i]).field(),
            ) == Some(request.members()[i]),
        forall|field: Field|
            #![trigger request.slot(field)]
            request.slot(field) is Some ==> request.members().contains(request.slot(field)->0),
        forall|field: Field|
            #![trigger request.slot(field)]
            request.slot(field) is None ==> forall|i: int|
                0 <= i < request.members().len() ==> (#[trigger] request.members()[i]).field()
                    != field,
        forall|i: int, j: int|
            0 <= i < j < request.members().len() ==> (#[trigger] request.members()[i]).field() != (
            #[trigger] request.members()[j]).field(),
{
    let all = Field::all();
    lemma_all_fields();
    lemma_members_of(request, all);
    assert forall|field: Field|
        #![trigger request.slot(field)]
        request.slot(field) is Some implies request.members().contains(request.slot(field)->0) by {
        let k = choose|k: int| 0 <= k < all.len() && all[k] == field;
        assert(request.slot(all[k]) is Some);
    }
}

/// A request that was built by any sequence of writes has, on the wire, a
/// member for a field exactly where the field was written or is `store`;
/// the member carries the last value written, and for a `store` that was
/// never written, true.
pub proof fn law_members_of_built(writes: Seq<Setting>, field: Field)
    ensures
        match last_write(writes, field) {
            Some(write) => ResponseRequest::built(writes).members().contains(write),
            None => if field == Field::Store {
                ResponseRequest::built(writes).members().contains(Setting::Store(true))
            } else {
                forall|i: int|
                    0 <= i < ResponseRequest::built(writes).members().len() ==> (
                    #[trigger] ResponseRequest::built(writes).members()[i]).field() != field
            },
        },
        forall|i: int|
            0 <= i < ResponseRequest::built(writes).members().len() && (
            #[trigger] ResponseRequest::built(writes).members()[i]).field() == field ==> Some(
                ResponseRequest::built(writes).members()[i],
            ) == ResponseRequest::built(writes).slot(field),
{
    let request = ResponseRequest::built(writes);
    law_built_request(writes, field);
    law_members_are_the_set_fields(request);
}

} // verus!
