//! The registry: the catalog, looked up by identifier, and the dispatch of
//! an invocation to the tool that it names.

use crate::catalog::{kind_of, kinds_as_named, names_distinct, tool_specs, TOOL_COUNT};
use crate::error::{validation, ErrorModel, ToolError};
use crate::json::{
    into_object, json_of, json_of_option, members_of, new_members, no_members, null_value,
    object_value, parse_text, parsed_text, Json,
};
use crate::request::{outcome_of, planned, BackendCall, CallModel};
use crate::text::{join, same_text};
use crate::tool::{SiyuanTool, ToolSpec};
use serde_json::Value;
use vstd::prelude::*;

verus! {

/// Whether some entry goes by `name`.
pub open spec fn has_tool(specs: Seq<ToolSpec>, name: Seq<char>) -> bool {
    exists|i: int| 0 <= i < specs.len() && (#[trigger] specs[i]).name@ == name
}

/// The entry that goes by `name`, if there is one.
pub open spec fn tool_named(specs: Seq<ToolSpec>, name: Seq<char>) -> Option<ToolSpec> {
    if has_tool(specs, name) {
        Some(specs[choose|i: int| 0 <= i < specs.len() && (#[trigger] specs[i]).name@ == name])
    } else {
        None
    }
}

/// The failure for an identifier that no tool goes by.
pub open spec fn unknown_tool(name: Seq<char>) -> ErrorModel {
    validation("unknown tool: "@ + name)
}

/// What looking `name` up comes to: the entry that goes by it, or a
/// validation failure that quotes the name.
pub open spec fn looked_up(specs: Seq<ToolSpec>, name: Seq<char>) -> Result<ToolSpec, ErrorModel> {
    match tool_named(specs, name) {
        Some(spec) => Ok(spec),
        None => Err(unknown_tool(name)),
    }
}

/// The reading of what a lookup returns.
pub open spec fn lookup_outcome(r: Result<&ToolSpec, ToolError>) -> Result<ToolSpec, ErrorModel> {
    match r {
        Ok(spec) => Ok(*spec),
        Err(e) => Err(e@),
    }
}

/// What an invocation of `name` with `args` comes to: the call of the tool
/// that goes by `name`, or a validation failure.
pub open spec fn dispatched(specs: Seq<ToolSpec>, name: Seq<char>, args: Json) -> Result<
    CallModel,
    ErrorModel,
> {
    match tool_named(specs, name) {
        Some(spec) => planned(spec.kind, spec.endpoint@, args),
        None => Err(unknown_tool(name)),
    }
}

/// Where identifiers are unique, the entry that goes by a name is the one
/// entry with that name.
pub proof fn lemma_tool_named_is_unique(specs: Seq<ToolSpec>, name: Seq<char>, i: int)
    requires
        names_distinct(specs),
        0 <= i < specs.len(),
        specs[i].name@ == name,
    ensures
        tool_named(specs, name) == Some(specs[i]),
{
}

/// An identifier that no entry goes by is rejected with a validation
/// failure that quotes it, whatever the arguments are, and no call is
/// planned.
pub proof fn lemma_unknown_tool_is_rejected(specs: Seq<ToolSpec>, name: Seq<char>, args: Json)
    requires
        forall|i: int| 0 <= i < specs.len() ==> (#[trigger] specs[i]).name@ != name,
    ensures
        looked_up(specs, name) == Err::<ToolSpec, ErrorModel>(unknown_tool(name)),
        dispatched(specs, name, args) == Err::<CallModel, ErrorModel>(
            validation("unknown tool: "@ + name),
        ),
{
}

/// Where every entry has the kind that goes with its name, an invocation
/// of a known tool is planned by that kind, for the endpoint of its entry.
pub proof fn lemma_dispatch_goes_by_the_name(specs: Seq<ToolSpec>, name: Seq<char>, args: Json)
    requires
        kinds_as_named(specs),
        has_tool(specs, name),
    ensures
        tool_named(specs, name) matches Some(spec) && spec.name@ == name && dispatched(
            specs,
            name,
            args,
        ) == planned(kind_of(name), spec.endpoint@, args),
{
}

/// Looking the same identifier up twice in the same registry gives the
/// same entry, or the same failure, both times. A lookup borrows the
/// registry without the right to change it, so its entries stay as they
/// were built.
pub proof fn lemma_lookup_is_repeatable(
    specs: Seq<ToolSpec>,
    name: Seq<char>,
    first: Result<ToolSpec, ErrorModel>,
    second: Result<ToolSpec, ErrorModel>,
)
    requires
        first == looked_up(specs, name),
        second == looked_up(specs, name),
    ensures
        first == second,
{
}

/// The tools of the gateway, by identifier. Built once and never changed.
pub struct ToolRegistry {
    specs: Vec<ToolSpec>,
}

impl View for ToolRegistry {
    type V = Seq<ToolSpec>;

    closed spec fn view(&self) -> Seq<ToolSpec> {
        self.specs@
    }
}

impl ToolRegistry {
    #[verifier::type_invariant]
    spec fn well_formed(&self) -> bool {
        &&& self.specs@.len() == TOOL_COUNT
        &&& names_distinct(self.specs@)
        &&& kinds_as_named(self.specs@)
    }

    /// The registry of the whole catalog.
    pub fn new() -> (registry: ToolRegistry)
        ensures
            registry@.len() == TOOL_COUNT,
            names_distinct(registry@),
            kinds_as_named(registry@),
    {
        ToolRegistry { specs: tool_specs() }
    }

    /// The entries, in the order of the catalog.
    pub fn tools(&self) -> (specs: &Vec<ToolSpec>)
        ensures
            specs@ == self@,
            specs@.len() == TOOL_COUNT,
            names_distinct(self@),
            kinds_as_named(self@),
    {
        proof {
            use_type_invariant(self);
        }
        &self.specs
    }

    /// Finds the entry that goes by `name`. For a name that no entry goes
    /// by, fails with a validation error that quotes the name.
    pub fn lookup(&self, name: &str) -> (r: Result<&ToolSpec, ToolError>)
        ensures
            names_distinct(self@),
            kinds_as_named(self@),
            lookup_outcome(r) == looked_up(self@, name@),
    {
        proof {
            use_type_invariant(self);
        }
        let mut i: usize = 0;
        while i < self.specs.len()
            invariant
                i <= self.specs.len(),
                names_distinct(self.specs@),
                kinds_as_named(self.specs@),
                forall|j: int| 0 <= j < i ==> (#[trigger] self.specs@[j]).name@ != name@,
            decreases self.specs.len() - i,
        {
            if same_text(self.specs[i].name, name) {
                proof {
                    lemma_tool_named_is_unique(self.specs@, name@, i as int);
                }
                return Ok(&self.specs[i]);
            }
            i = i + 1;
        }
        Err(ToolError::invalid_params(join("unknown tool: ", name)))
    }

    /// Decides the backend call for an invocation of the tool `name` with
    /// `args`. Fails with a validation error where no tool goes by `name` or
    /// the arguments do not fit the tool; no call is to be made then.
    pub fn dispatch(&self, name: &str, args: Value) -> (r: Result<BackendCall, ToolError>)
        ensures
            outcome_of(r) == dispatched(self@, name@, json_of(args)),
    {
        match self.lookup(name) {
            Ok(spec) => SiyuanTool::new(spec).handle(args),
            Err(e) => Err(e),
        }
    }
}

/// The arguments object of a schema, read from its JSON text; empty where
/// the text is not a JSON object.
pub open spec fn schema_members(parsed: Option<Json>) -> Map<Seq<char>, Json> {
    match parsed {
        Some(Json::Object(members)) => members,
        _ => no_members(),
    }
}

/// The object that a parsed schema holds; empty where there is none.
pub fn schema_object(parsed: Option<Value>) -> (schema: serde_json::Map<String, Value>)
    ensures
        members_of(schema) == schema_members(json_of_option(parsed)),
{
    match parsed {
        Some(value) => match into_object(value) {
            Ok(members) => members,
            Err(_) => new_members(),
        },
        None => new_members(),
    }
}

/// Reads the schema of a tool's arguments from its JSON text.
pub fn parse_schema(schema: &str) -> (object: serde_json::Map<String, Value>)
    ensures
        members_of(object) == schema_members(parsed_text(schema@)),
{
    schema_object(parse_text(schema))
}

/// The arguments of an invocation as one value: the object where one came
/// with the invocation, `null` where none did.
pub fn arguments_value(arguments: Option<serde_json::Map<String, Value>>) -> (args: Value)
    ensures
        json_of(args) == match arguments {
            Some(members) => Json::Object(members_of(members)),
            None => Json::Null,
        },
{
    match arguments {
        Some(members) => object_value(members),
        None => null_value(),
    }
}

} // verus!
