//! The function registry: the callable tools, each with a name, a
//! description and typed parameters, looked up by name and invoked with
//! untyped JSON arguments.

use crate::ai_functions::get_weather::GetWeatherFunction;
use crate::ai_functions::website_to_md::WebsiteToMdFunction;
use crate::json::{as_text, is_null, json_model, member, spec_member, JsonValue, JsonView};
use crate::text::{join3, str_eq};
use vstd::prelude::*;
use vstd::string::*;

pub mod get_weather;
pub mod website_to_md;

verus! {

/// One parameter of a tool: its type tag, what it means, and whether a call
/// must give it.
#[derive(Clone, Debug, PartialEq, Eq)]
pub struct AIFunctionParameter {
    pub param_type: String,
    pub description: String,
    pub required: bool,
}

/// The model of an [`AIFunctionParameter`].
pub struct AIFunctionParameterView {
    pub param_type: Seq<char>,
    pub description: Seq<char>,
    pub required: bool,
}

impl DeepView for AIFunctionParameter {
    type V = AIFunctionParameterView;

    open spec fn deep_view(&self) -> AIFunctionParameterView {
        AIFunctionParameterView {
            param_type: self.param_type@,
            description: self.description@,
            required: self.required,
        }
    }
}

impl AIFunctionParameter {
    /// A parameter of the given type and meaning.
    pub fn new(param_type: &str, description: &str, required: bool) -> (r: Self)
        ensures
            r.deep_view() == (AIFunctionParameterView {
                param_type: param_type@,
                description: description@,
                required,
            }),
    {
        Self {
            param_type: String::from_str(param_type),
            description: String::from_str(description),
            required,
        }
    }
}

/// Why a tool call gave no result.
#[derive(Clone, Copy, Debug, PartialEq, Eq, Structural)]
pub enum ToolErrorKind {
    /// No tool of that name is registered.
    UnknownFunction,
    /// A required parameter is absent.
    MissingParameter,
    /// A parameter holds something other than a string.
    InvalidParameter,
    /// The tool ran and failed.
    Failed,
}

/// A failed tool call: the kind of failure and the name or detail it is about.
#[derive(Clone, Debug, PartialEq, Eq)]
pub struct ToolError {
    pub kind: ToolErrorKind,
    pub detail: String,
}

/// The model of a [`ToolError`].
pub struct ToolErrorView {
    pub kind: ToolErrorKind,
    pub detail: Seq<char>,
}

impl DeepView for ToolError {
    type V = ToolErrorView;

    open spec fn deep_view(&self) -> ToolErrorView {
        ToolErrorView { kind: self.kind, detail: self.detail@ }
    }
}

/// The sentence that describes a failure.
pub open spec fn spec_error_message(e: ToolErrorView) -> Seq<char> {
    match e.kind {
        ToolErrorKind::UnknownFunction => "Function '"@ + e.detail + "' not found"@,
        ToolErrorKind::MissingParameter => "missing field `"@ + e.detail + "`"@,
        ToolErrorKind::InvalidParameter => "invalid type for field `"@ + e.detail
            + "`: expected a string"@,
        ToolErrorKind::Failed => e.detail,
    }
}

impl ToolError {
    /// A failure of the given kind about `detail`.
    pub fn new(kind: ToolErrorKind, detail: &str) -> (r: Self)
        ensures
            r.deep_view() == (ToolErrorView { kind, detail: detail@ }),
    {
        ToolError { kind, detail: String::from_str(detail) }
    }

    /// The sentence that describes this failure.
    pub fn message(&self) -> (r: String)
        ensures
            r@ == spec_error_message(self.deep_view()),
    {
        match self.kind {
            ToolErrorKind::UnknownFunction => join3("Function '", self.detail.as_str(), "' not found"),
            ToolErrorKind::MissingParameter => join3("missing field `", self.detail.as_str(), "`"),
            ToolErrorKind::InvalidParameter => join3(
                "invalid type for field `",
                self.detail.as_str(),
                "`: expected a string",
            ),
            ToolErrorKind::Failed => self.detail.clone(),
        }
    }
}

/// How far a tool call got inside the library.
#[derive(Debug, PartialEq, Eq)]
pub enum Invocation {
    /// The call is over, with its result or its failure.
    Finished(Result<JsonValue, ToolError>),
    /// The arguments are in order; the page at `url` has to be fetched
    /// before the call can be completed.
    Scrape { url: String },
}

/// The model of an [`Invocation`].
pub enum InvocationView {
    Finished(Result<JsonView, ToolErrorView>),
    Scrape { url: Seq<char> },
}

impl DeepView for Invocation {
    type V = InvocationView;

    open spec fn deep_view(&self) -> InvocationView {
        match self {
            Invocation::Finished(Ok(value)) => InvocationView::Finished(Ok(json_model(*value))),
            Invocation::Finished(Err(e)) => InvocationView::Finished(Err(e.deep_view())),
            Invocation::Scrape { url } => InvocationView::Scrape { url: url@ },
        }
    }
}

/// The failure that stands for a call of an unregistered tool.
pub open spec fn spec_unknown_function(name: Seq<char>) -> InvocationView {
    InvocationView::Finished(
        Err(ToolErrorView { kind: ToolErrorKind::UnknownFunction, detail: name }),
    )
}

/// A required string argument: the text under `key`, or why there is none.
pub open spec fn spec_required_text(args: JsonView, key: Seq<char>) -> Result<
    Seq<char>,
    ToolErrorView,
> {
    match spec_member(args, key) {
        Some(JsonView::Text(text)) => Ok(text),
        Some(_) => Err(ToolErrorView { kind: ToolErrorKind::InvalidParameter, detail: key }),
        None => Err(ToolErrorView { kind: ToolErrorKind::MissingParameter, detail: key }),
    }
}

/// An optional string argument: absent and `null` both mean "not given".
pub open spec fn spec_optional_text(args: JsonView, key: Seq<char>) -> Result<
    Option<Seq<char>>,
    ToolErrorView,
> {
    match spec_member(args, key) {
        Some(JsonView::Text(text)) => Ok(Some(text)),
        Some(JsonView::Null) => Ok(None),
        Some(_) => Err(ToolErrorView { kind: ToolErrorKind::InvalidParameter, detail: key }),
        None => Ok(None),
    }
}

/// The view of a tool's result.
pub open spec fn outcome_view(r: Result<JsonValue, ToolError>) -> Result<JsonView, ToolErrorView> {
    match r {
        Ok(value) => Ok(json_model(value)),
        Err(e) => Err(e.deep_view()),
    }
}

/// The view of a result that holds a string.
pub open spec fn text_or_error(r: Result<String, ToolError>) -> Result<Seq<char>, ToolErrorView> {
    match r {
        Ok(text) => Ok(text@),
        Err(e) => Err(e.deep_view()),
    }
}

/// The view of a result that holds an optional string.
pub open spec fn optional_text_or_error(r: Result<Option<String>, ToolError>) -> Result<
    Option<Seq<char>>,
    ToolErrorView,
> {
    match r {
        Ok(Some(text)) => Ok(Some(text@)),
        Ok(None) => Ok(None),
        Err(e) => Err(e.deep_view()),
    }
}

/// Reads a required string argument.
pub fn required_text(args: &JsonValue, key: &str) -> (r: Result<String, ToolError>)
    ensures
        text_or_error(r) == spec_required_text(json_model(*args), key@),
{
    match member(args, key) {
        Some(found) => match as_text(found) {
            Some(text) => Ok(text.to_owned()),
            None => Err(ToolError::new(ToolErrorKind::InvalidParameter, key)),
        },
        None => Err(ToolError::new(ToolErrorKind::MissingParameter, key)),
    }
}

/// Reads an optional string argument.
pub fn optional_text(args: &JsonValue, key: &str) -> (r: Result<Option<String>, ToolError>)
    ensures
        optional_text_or_error(r) == spec_optional_text(json_model(*args), key@),
{
    match member(args, key) {
        Some(found) => match as_text(found) {
            Some(text) => Ok(Some(text.to_owned())),
            None => if is_null(found) {
                Ok(None)
            } else {
                Err(ToolError::new(ToolErrorKind::InvalidParameter, key))
            },
        },
        None => Ok(None),
    }
}

/// Whether no name stands twice among the parameters.
pub open spec fn spec_distinct_names(
    parameters: Seq<(Seq<char>, AIFunctionParameterView)>,
) -> bool {
    forall|i: int, j: int|
        0 <= i < parameters.len() && 0 <= j < parameters.len() && i != j ==> parameters[i].0
            != parameters[j].0
}

/// What every tool exposes: how it is advertised, and how it is run.
pub trait AIFunction {
    /// The name the tool is registered and called under.
    spec fn spec_name(&self) -> Seq<char>;

    /// What the tool does, for whoever chooses among the tools.
    spec fn spec_description(&self) -> Seq<char>;

    /// The parameters, in the order in which the tool lists them.
    spec fn spec_parameters(&self) -> Seq<(Seq<char>, AIFunctionParameterView)>;

    /// What holds of a call with these arguments, however it went: `outcome`
    /// is one that the tool may give for them.
    spec fn spec_execute(&self, args: JsonView, outcome: InvocationView) -> bool;

    /// The name the tool is registered and called under.
    fn name(&self) -> (r: &'static str)
        ensures
            r@ == self.spec_name(),
    ;

    /// What the tool does.
    fn description(&self) -> (r: &'static str)
        ensures
            r@ == self.spec_description(),
    ;

    /// The parameters that a call may give, each under its own name: no
    /// name stands twice.
    fn parameters(&self) -> (r: Vec<(String, AIFunctionParameter)>)
        ensures
            r.deep_view() == self.spec_parameters(),
            spec_distinct_names(self.spec_parameters()),
    ;

    /// Runs the tool on untyped arguments, as far as that can be done without
    /// leaving the library. The tool checks its arguments itself.
    fn execute(&self, args: &JsonValue) -> (r: Invocation)
        ensures
            self.spec_execute(json_model(*args), r.deep_view()),
    ;
}

/// A tool that the library ships.
#[derive(Clone, Copy, Debug, PartialEq, Eq)]
pub enum BuiltinFunction {
    GetWeather(GetWeatherFunction),
    WebsiteToMd(WebsiteToMdFunction),
}

impl AIFunction for BuiltinFunction {
    open spec fn spec_name(&self) -> Seq<char> {
        match self {
            BuiltinFunction::GetWeather(f) => f.spec_name(),
            BuiltinFunction::WebsiteToMd(f) => f.spec_name(),
        }
    }

    open spec fn spec_description(&self) -> Seq<char> {
        match self {
            BuiltinFunction::GetWeather(f) => f.spec_description(),
            BuiltinFunction::WebsiteToMd(f) => f.spec_description(),
        }
    }

    open spec fn spec_parameters(&self) -> Seq<(Seq<char>, AIFunctionParameterView)> {
        match self {
            BuiltinFunction::GetWeather(f) => f.spec_parameters(),
            BuiltinFunction::WebsiteToMd(f) => f.spec_parameters(),
        }
    }

    open spec fn spec_execute(&self, args: JsonView, outcome: InvocationView) -> bool {
        match self {
            BuiltinFunction::GetWeather(f) => f.spec_execute(args, outcome),
            BuiltinFunction::WebsiteToMd(f) => f.spec_execute(args, outcome),
        }
    }

    fn name(&self) -> (r: &'static str) {
        match self {
            BuiltinFunction::GetWeather(f) => f.name(),
            BuiltinFunction::WebsiteToMd(f) => f.name(),
        }
    }

    fn description(&self) -> (r: &'static str) {
        match self {
            BuiltinFunction::GetWeather(f) => f.description(),
            BuiltinFunction::WebsiteToMd(f) => f.description(),
        }
    }

    fn parameters(&self) -> (r: Vec<(String, AIFunctionParameter)>) {
        match self {
            BuiltinFunction::GetWeather(f) => f.parameters(),
            BuiltinFunction::WebsiteToMd(f) => f.parameters(),
        }
    }

    fn execute(&self, args: &JsonValue) -> (r: Invocation) {
        match self {
            BuiltinFunction::GetWeather(f) => f.execute(args),
            BuiltinFunction::WebsiteToMd(f) => f.execute(args),
        }
    }
}

/// The tools that the library ships, in the order in which they are
/// advertised.
pub open spec fn spec_all_functions() -> Seq<BuiltinFunction> {
    seq![
        BuiltinFunction::GetWeather(GetWeatherFunction),
        BuiltinFunction::WebsiteToMd(WebsiteToMdFunction),
    ]
}

/// The tools that the library ships, in the order in which they are
/// advertised.
pub fn get_all_functions() -> (r: Vec<BuiltinFunction>)
    ensures
        r@ == spec_all_functions(),
{
    let mut all: Vec<BuiltinFunction> = Vec::new();
    all.push(BuiltinFunction::GetWeather(GetWeatherFunction));
    all.push(BuiltinFunction::WebsiteToMd(WebsiteToMdFunction));
    assert(all@ =~= spec_all_functions());
    all
}

/// How a tool is advertised.
#[derive(Clone, Debug, PartialEq, Eq)]
pub struct FunctionDescriptor {
    pub name: String,
    pub description: String,
    pub parameters: Vec<(String, AIFunctionParameter)>,
}

/// The model of a [`FunctionDescriptor`].
pub struct FunctionDescriptorView {
    pub name: Seq<char>,
    pub description: Seq<char>,
    pub parameters: Seq<(Seq<char>, AIFunctionParameterView)>,
}

impl DeepView for FunctionDescriptor {
    type V = FunctionDescriptorView;

    open spec fn deep_view(&self) -> FunctionDescriptorView {
        FunctionDescriptorView {
            name: self.name@,
            description: self.description@,
            parameters: self.parameters.deep_view(),
        }
    }
}

/// How `function` is advertised.
pub open spec fn spec_describe<F: AIFunction>(function: F) -> FunctionDescriptorView {
    FunctionDescriptorView {
        name: function.spec_name(),
        description: function.spec_description(),
        parameters: function.spec_parameters(),
    }
}

/// The tool that is registered under `name`. Tools are registered in order,
/// each under its name, and a later one takes the place of an earlier one of
/// the same name: the tool found is the last of `functions` that goes by
/// `name`.
pub open spec fn spec_lookup<F: AIFunction>(functions: Seq<F>, name: Seq<char>) -> Option<F>
    decreases functions.len(),
{
    if functions.len() == 0 {
        None
    } else if functions.last().spec_name() == name {
        Some(functions.last())
    } else {
        spec_lookup(functions.drop_last(), name)
    }
}

/// Whether the tool at `index` has been replaced: a later one goes by its
/// name.
pub open spec fn spec_replaced<F: AIFunction>(functions: Seq<F>, index: int) -> bool {
    exists|later: int|
        index < later < functions.len() && #[trigger] functions[later].spec_name()
            == functions[index].spec_name()
}

/// The tools among the first `upto` of `functions` that have not been
/// replaced, in the order in which they were registered.
pub open spec fn spec_registered<F: AIFunction>(functions: Seq<F>, upto: int) -> Seq<F>
    decreases upto,
{
    if upto <= 0 {
        Seq::empty()
    } else if spec_replaced(functions, upto - 1) {
        spec_registered(functions, upto - 1)
    } else {
        spec_registered(functions, upto - 1).push(functions[upto - 1])
    }
}

/// The descriptors of the registered tools: one per name, in the order of
/// registration.
pub open spec fn spec_list<F: AIFunction>(functions: Seq<F>) -> Seq<FunctionDescriptorView> {
    Seq::new(
        spec_registered(functions, functions.len() as int).len(),
        |i: int| spec_describe(spec_registered(functions, functions.len() as int)[i]),
    )
}

/// What holds of a call of `name` on `functions`, however it went: an
/// unregistered name gives exactly the failure that names it, a registered
/// one an outcome of that tool.
pub open spec fn spec_invoke<F: AIFunction>(
    functions: Seq<F>,
    name: Seq<char>,
    args: JsonView,
    outcome: InvocationView,
) -> bool {
    match spec_lookup(functions, name) {
        Some(function) => function.spec_execute(args, outcome),
        None => outcome == spec_unknown_function(name),
    }
}

/// The tools that can be called, looked up by exact name. A registry holds
/// tools of one type: [`BuiltinFunction`] for the tools that the library
/// ships, or a type of the user's that implements [`AIFunction`].
#[derive(Clone, Debug, PartialEq, Eq)]
pub struct FunctionRegistry<F: AIFunction> {
    pub functions: Vec<F>,
}

impl<F: AIFunction> FunctionRegistry<F> {
    /// A registry of the given tools.
    pub fn new(functions: Vec<F>) -> (r: Self)
        ensures
            r.functions@ == functions@,
    {
        FunctionRegistry { functions }
    }

    /// Finds the tool that is registered under `name`: the one registered
    /// last, where several go by that name.
    pub fn lookup(&self, name: &str) -> (r: Option<&F>)
        ensures
            match r {
                Some(found) => spec_lookup(self.functions@, name@) == Some(*found),
                None => spec_lookup(self.functions@, name@) is None,
            },
    {
        let mut i: usize = self.functions.len();
        assert(self.functions@.take(i as int) =~= self.functions@);
        while i > 0
            invariant
                i <= self.functions.len(),
                spec_lookup(self.functions@, name@) == spec_lookup(
                    self.functions@.take(i as int),
                    name@,
                ),
            decreases i,
        {
            let function = &self.functions[i - 1];
            assert(self.functions@.take(i as int).last() == *function);
            assert(self.functions@.take(i as int).drop_last() =~= self.functions@.take(i - 1));
            if str_eq(function.name(), name) {
                return Some(function);
            }
            i -= 1;
        }
        None
    }

    /// Whether the tool at `index` has been replaced by a later one of its
    /// name.
    fn is_replaced(&self, index: usize) -> (r: bool)
        requires
            index < self.functions@.len(),
        ensures
            r == spec_replaced(self.functions@, index as int),
    {
        let total = self.functions.len();
        let name = self.functions[index].name();
        let mut later: usize = index + 1;
        while later < total
            invariant
                index < later <= total,
                total == self.functions@.len(),
                name@ == self.functions@[index as int].spec_name(),
                forall|k: int|
                    index < k < later ==> #[trigger] self.functions@[k].spec_name() != name@,
            decreases total - later,
        {
            if str_eq(self.functions[later].name(), name) {
                return true;
            }
            later += 1;
        }
        false
    }

    /// The descriptors of the registered tools: one per name, in the order
    /// of registration.
    pub fn list(&self) -> (r: Vec<FunctionDescriptor>)
        ensures
            r.deep_view() == spec_list(self.functions@),
    {
        let mut out: Vec<FunctionDescriptor> = Vec::new();
        let mut i: usize = 0;
        while i < self.functions.len()
            invariant
                i <= self.functions.len(),
                out@.len() == spec_registered(self.functions@, i as int).len(),
                forall|k: int|
                    0 <= k < out@.len() ==> (#[trigger] out@[k]).deep_view() == spec_describe(
                        spec_registered(self.functions@, i as int)[k],
                    ),
            decreases self.functions.len() - i,
        {
            if !self.is_replaced(i) {
                let function = &self.functions[i];
                out.push(
                    FunctionDescriptor {
                        name: String::from_str(function.name()),
                        description: String::from_str(function.description()),
                        parameters: function.parameters(),
                    },
                );
            }
            i += 1;
        }
        assert(out.deep_view() =~= spec_list(self.functions@));
        out
    }

    /// Calls the tool that goes by `name`. An unknown name is no fault of the
    /// caller's making: it gives the failure that names it, every time.
    pub fn invoke(&self, name: &str, args: &JsonValue) -> (r: Invocation)
        ensures
            spec_invoke(self.functions@, name@, json_model(*args), r.deep_view()),
    {
        match self.lookup(name) {
            Some(function) => function.execute(args),
            None => Invocation::Finished(Err(ToolError::new(ToolErrorKind::UnknownFunction, name))),
        }
    }
}

/// Each of the shipped tools is found under its own name, and none of them
/// replaces another.
pub proof fn lemma_shipped_tools_are_found()
    ensures
        spec_registered(spec_all_functions(), 2) == spec_all_functions(),
        spec_lookup(spec_all_functions(), "get_weather"@) == Some(
            BuiltinFunction::GetWeather(GetWeatherFunction),
        ),
        spec_lookup(spec_all_functions(), "website_to_md"@) == Some(
            BuiltinFunction::WebsiteToMd(WebsiteToMdFunction),
        ),
{
    reveal_strlit("get_weather");
    reveal_strlit("website_to_md");
    let all = spec_all_functions();
    assert("get_weather"@.len() != "website_to_md"@.len());
    assert(all.last().spec_name() == "website_to_md"@);
    assert(all.drop_last().last().spec_name() == "get_weather"@);
    assert(spec_lookup(all.drop_last(), "get_weather"@) == Some(all.drop_last().last()));
    assert(!spec_replaced(all, 0)) by {
        assert(all[1].spec_name() == "website_to_md"@);
    }
    assert(!spec_replaced(all, 1));
    assert(spec_registered(all, 0) =~= Seq::<BuiltinFunction>::empty());
    assert(spec_registered(all, 1) =~= seq![all[0]]);
    assert(spec_registered(all, 2) =~= all);
}

/// Calling an unregistered tool twice with the same arguments gives the same
/// failure both times, whatever the arguments are: the failure depends on the
/// name alone.
pub proof fn lemma_unknown_function_is_idempotent<F: AIFunction>(
    functions: Seq<F>,
    name: Seq<char>,
    args: JsonView,
    first: InvocationView,
    second: InvocationView,
)
    requires
        spec_lookup(functions, name) is None,
        spec_invoke(functions, name, args, first),
        spec_invoke(functions, name, args, second),
    ensures
        first == second,
        first == spec_unknown_function(name),
        first matches InvocationView::Finished(Err(e)) && spec_error_message(e) == "Function '"@
            + name + "' not found"@,
{
}

} // verus!
