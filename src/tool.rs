use vstd::prelude::*;

verus! {

/// The string contents of a vector of strings.
pub open spec fn texts(v: Seq<String>) -> Seq<Seq<char>> {
    v.map_values(|s: String| s@)
}

/// The JSON-Schema-shaped description of the arguments a tool accepts:
/// the names of the object's properties and those that are required.
#[derive(Debug, Clone, PartialEq, Eq)]
pub struct ParameterSchema {
    pub properties: Vec<String>,
    pub required: Vec<String>,
}

pub struct SchemaView {
    pub properties: Seq<Seq<char>>,
    pub required: Seq<Seq<char>>,
}

impl View for ParameterSchema {
    type V = SchemaView;

    open spec fn view(&self) -> SchemaView {
        SchemaView { properties: texts(self.properties@), required: texts(self.required@) }
    }
}

/// What a tool advertises to the provider.
#[derive(Debug, Clone, PartialEq, Eq)]
pub struct ToolDefinition {
    pub name: String,
    pub description: String,
    pub parameters: ParameterSchema,
}

pub struct DefinitionView {
    pub name: Seq<char>,
    pub description: Seq<char>,
    pub parameters: SchemaView,
}

impl View for ToolDefinition {
    type V = DefinitionView;

    open spec fn view(&self) -> DefinitionView {
        DefinitionView {
            name: self.name@,
            description: self.description@,
            parameters: self.parameters@,
        }
    }
}

/// The arguments of a tool invocation as the provider sent them: the names
/// of the argument object's members, or `None` when the payload was not an
/// object.
#[derive(Debug, Clone, PartialEq, Eq)]
pub struct ToolArguments {
    pub names: Option<Vec<String>>,
}

impl View for ToolArguments {
    type V = Option<Seq<Seq<char>>>;

    open spec fn view(&self) -> Option<Seq<Seq<char>>> {
        match self.names {
            Some(v) => Some(texts(v@)),
            None => None,
        }
    }
}

pub open spec fn all_declared(schema: SchemaView, args: Seq<Seq<char>>) -> bool {
    forall|i: int| 0 <= i < args.len() ==> schema.properties.contains(#[trigger] args[i])
}

pub open spec fn all_present(schema: SchemaView, args: Seq<Seq<char>>) -> bool {
    forall|j: int| 0 <= j < schema.required.len() ==> args.contains(#[trigger] schema.required[j])
}

/// Arguments conform to a schema when they form an object, each one is a
/// declared property and each required property is present.
pub open spec fn conforms(schema: SchemaView, args: Option<Seq<Seq<char>>>) -> bool {
    match args {
        Some(a) => all_declared(schema, a) && all_present(schema, a),
        None => false,
    }
}

/// `args[i]` is the first argument that the schema does not declare.
pub open spec fn first_undeclared(schema: SchemaView, args: Seq<Seq<char>>, i: int) -> bool {
    &&& 0 <= i < args.len()
    &&& !schema.properties.contains(args[i])
    &&& all_declared(schema, args.take(i))
}

/// `required[j]` is the first required property that `args` lacks.
pub open spec fn first_missing(schema: SchemaView, args: Seq<Seq<char>>, j: int) -> bool {
    &&& 0 <= j < schema.required.len()
    &&& !args.contains(schema.required[j])
    &&& forall|k: int| 0 <= k < j ==> args.contains(#[trigger] schema.required[k])
}

/// What is wrong with the arguments of an invocation.
#[derive(Debug, Clone, PartialEq, Eq)]
pub enum ArgumentProblem {
    /// The payload was not an object.
    NotAnObject,
    /// The named argument is not declared.
    Undeclared(String),
    /// The named property is required and missing.
    Missing(String),
}

/// Why a tool invocation failed.
#[derive(Debug, Clone, PartialEq, Eq)]
pub enum ToolError {
    /// The arguments do not match the schema.
    ArgumentError(ArgumentProblem),
    /// The tool could not carry out its work.
    ExecutionError(String),
}

/// `e` is the error that checking `args` against `schema` reports: a
/// payload that is not an object, else the first undeclared argument, else
/// the first missing required property.
pub open spec fn refusal(schema: SchemaView, args: Option<Seq<Seq<char>>>, e: ToolError) -> bool {
    match e {
        ToolError::ArgumentError(ArgumentProblem::NotAnObject) => args is None,
        ToolError::ArgumentError(ArgumentProblem::Undeclared(n)) => args matches Some(a)
            && exists|i: int| first_undeclared(schema, a, i) && a[i] == n@,
        ToolError::ArgumentError(ArgumentProblem::Missing(n)) => args matches Some(a)
            && all_declared(schema, a) && exists|j: int| first_missing(schema, a, j)
            && schema.required[j] == n@,
        ToolError::ExecutionError(_) => false,
    }
}

/// Searches `hay` for a string equal to `needle`.
pub fn contains_text(hay: &Vec<String>, needle: &String) -> (r: bool)
    ensures
        r == texts(hay@).contains(needle@),
{
    let mut i: usize = 0;
    while i < hay.len()
        invariant
            0 <= i <= hay.len(),
            forall|k: int| 0 <= k < i ==> hay@[k]@ != needle@,
        decreases hay.len() - i,
    {
        if hay[i] == *needle {
            assert(texts(hay@)[i as int] == needle@);
            return true;
        }
        i = i + 1;
    }
    assert forall|k: int| 0 <= k < texts(hay@).len() implies texts(hay@)[k] != needle@ by {}
    false
}

/// Checks `args` against `schema`: a payload that is not an object is
/// refused, then the first undeclared argument, then the first missing
/// required property.
pub fn check_arguments(schema: &ParameterSchema, args: &ToolArguments) -> (r: Result<(), ToolError>)
    ensures
        r is Ok <==> conforms(schema@, args@),
        r matches Err(e) ==> refusal(schema@, args@, e),
{
    let names = match &args.names {
        Some(names) => names,
        None => {
            return Err(ToolError::ArgumentError(ArgumentProblem::NotAnObject));
        },
    };
    let ghost a = texts(names@);
    assert(args@ == Some(a));
    let mut i: usize = 0;
    while i < names.len()
        invariant
            0 <= i <= names.len(),
            a == texts(names@),
            args@ == Some(a),
            forall|k: int| 0 <= k < i ==> schema@.properties.contains(#[trigger] a[k]),
        decreases names.len() - i,
    {
        if !contains_text(&schema.properties, &names[i]) {
            let name = names[i].clone();
            assert(a[i as int] == name@);
            assert(!schema@.properties.contains(a[i as int]));
            assert forall|k: int| 0 <= k < a.take(i as int).len() implies schema@.properties.contains(
                #[trigger] a.take(i as int)[k],
            ) by {
                assert(a.take(i as int)[k] == a[k]);
            }
            assert(first_undeclared(schema@, a, i as int));
            assert(!all_declared(schema@, a));
            return Err(ToolError::ArgumentError(ArgumentProblem::Undeclared(name)));
        }
        i = i + 1;
    }
    let mut j: usize = 0;
    while j < schema.required.len()
        invariant
            0 <= j <= schema.required.len(),
            a == texts(names@),
            args@ == Some(a),
            all_declared(schema@, a),
            forall|k: int| 0 <= k < j ==> a.contains(#[trigger] schema@.required[k]),
        decreases schema.required.len() - j,
    {
        if !contains_text(names, &schema.required[j]) {
            let name = schema.required[j].clone();
            assert(schema@.required[j as int] == name@);
            assert(!a.contains(schema@.required[j as int]));
            assert(first_missing(schema@, a, j as int));
            assert(!all_present(schema@, a));
            return Err(ToolError::ArgumentError(ArgumentProblem::Missing(name)));
        }
        j = j + 1;
    }
    Ok(())
}

/// The arguments of the current-time tool: it takes none.
#[derive(Debug, Clone, PartialEq, Eq)]
pub struct GetCurrentTimeArgs {}

/// A tool that reports the local wall-clock time.
#[derive(Debug, Clone, PartialEq, Eq)]
pub struct GetCurrentTime;

/// The result of the current-time tool.
#[derive(Debug, Clone, PartialEq, Eq)]
pub struct CurrentTimeOutput {
    pub current_time: String,
}

pub open spec fn current_time_definition() -> DefinitionView {
    DefinitionView {
        name: "get_current_time"@,
        description: "Get the current local time"@,
        parameters: SchemaView { properties: seq![], required: seq![] },
    }
}

/// `t` has the shape `<year>-MM-DD HH:MM:SS <zone>`: a year of at least
/// four characters (with a sign outside the years 0 to 9999), two-digit
/// fields with the separators between them, and a non-empty zone.
pub open spec fn is_time_text(t: Seq<char>) -> bool {
    exists|y: int|
        #![trigger t[y]]
        4 <= y && y + 16 < t.len() && t[y] == '-' && t[y + 3] == '-' && t[y + 6] == ' ' && t[y + 9]
            == ':' && t[y + 12] == ':' && t[y + 15] == ' ' && forall|k: int|
            y < k < y + 15 && (k - y) % 3 != 0 ==> '0' <= #[trigger] t[k] <= '9'
}

/// Relies on std's `SystemTime::now` and `duration_since(UNIX_EPOCH)` to
/// read the clock, and on chrono's `DateTime::from_timestamp`,
/// `with_timezone(&Local)` and `format(..).to_string()` to write it in the
/// local zone: `None` when the clock reads before 1970 or past what chrono
/// represents. With the pattern given, `%Y` writes at least four
/// characters, the other fields two zero-padded digits each, and `%Z` the
/// zone's offset (`+02:00`). The zone lookup still panics when the system's
/// zone data is malformed (a zone without a time type for the instant, or an
/// offset of a day or more).
#[verifier::external_body]
fn local_time_text(pattern: &str) -> (r: Option<String>)
    requires
        pattern@ == "%Y-%m-%d %H:%M:%S %Z"@,
    ensures
        r matches Some(t) ==> is_time_text(t@),
{
    let since = std::time::SystemTime::now().duration_since(std::time::UNIX_EPOCH).ok()?;
    let secs = i64::try_from(since.as_secs()).ok()?;
    let utc = chrono::DateTime::from_timestamp(secs, since.subsec_nanos())?;
    Some(utc.with_timezone(&chrono::Local).format(pattern).to_string())
}

impl GetCurrentTime {
    /// The name under which the provider calls this tool.
    pub fn name(&self) -> (r: String)
        ensures
            r@ == current_time_definition().name,
    {
        String::from_str("get_current_time")
    }

    /// The definition advertised to the provider; the prompt is not used.
    pub fn definition(&self, prompt: String) -> (r: ToolDefinition)
        ensures
            r@ == current_time_definition(),
    {
        let r = ToolDefinition {
            name: self.name(),
            description: String::from_str("Get the current local time"),
            parameters: ParameterSchema { properties: Vec::new(), required: Vec::new() },
        };
        assert(r@.parameters.properties =~= seq![]);
        assert(r@.parameters.required =~= seq![]);
        r
    }

    /// Reads the arguments of an invocation: an empty object is accepted,
    /// anything else refused.
    pub fn parse_args(&self, args: &ToolArguments) -> (r: Result<GetCurrentTimeArgs, ToolError>)
        ensures
            r is Ok <==> conforms(current_time_definition().parameters, args@),
            r matches Err(e) ==> refusal(current_time_definition().parameters, args@, e),
    {
        let schema = ParameterSchema { properties: Vec::new(), required: Vec::new() };
        assert(schema@.properties =~= seq![]);
        assert(schema@.required =~= seq![]);
        match check_arguments(&schema, args) {
            Ok(()) => Ok(GetCurrentTimeArgs {}),
            Err(e) => Err(e),
        }
    }

    /// Reads the local clock now and reports it as
    /// `YYYY-MM-DD HH:MM:SS <zone offset>`; a clock that cannot be read is an
    /// execution error.
    pub fn call(&self, args: GetCurrentTimeArgs) -> (r: Result<CurrentTimeOutput, ToolError>)
        ensures
            r matches Ok(o) ==> is_time_text(o.current_time@),
            r matches Err(e) ==> e is ExecutionError,
    {
        match local_time_text("%Y-%m-%d %H:%M:%S %Z") {
            Some(current_time) => Ok(CurrentTimeOutput { current_time }),
            None => Err(ToolError::ExecutionError(String::from_str("the system clock could not be read"))),
        }
    }
}

} // verus!
