//! Tool framework types: definitions, schemas, results and the registry.

use vstd::prelude::*;
use crate::types::string_is;

verus! {

/// Schema of one tool parameter.
#[derive(Debug, Clone)]
pub struct PropertySchema {
    /// `string`, `integer` or `boolean`.
    pub kind: String,
    pub description: String,
    /// Raw JSON text of the default value, if any.
    pub default_json: Option<String>,
}

impl PropertySchema {
    /// A string-typed parameter.
    pub fn string(description: &str) -> (r: Self)
        ensures
            r.kind@ == "string"@,
            r.description@ == description@,
            r.default_json is None,
    {
        PropertySchema {
            kind: String::from_str("string"),
            description: String::from_str(description),
            default_json: None,
        }
    }

    /// An integer-typed parameter.
    pub fn integer(description: &str) -> (r: Self)
        ensures
            r.kind@ == "integer"@,
            r.description@ == description@,
            r.default_json is None,
    {
        PropertySchema {
            kind: String::from_str("integer"),
            description: String::from_str(description),
            default_json: None,
        }
    }

    /// A boolean-typed parameter.
    pub fn boolean(description: &str) -> (r: Self)
        ensures
            r.kind@ == "boolean"@,
            r.description@ == description@,
            r.default_json is None,
    {
        PropertySchema {
            kind: String::from_str("boolean"),
            description: String::from_str(description),
            default_json: None,
        }
    }

    /// The same parameter with a default value, given as raw JSON text.
    pub fn with_default(self, default_json: &str) -> (r: Self)
        ensures
            r.kind@ == self.kind@,
            r.description@ == self.description@,
            match r.default_json {
                Some(d) => d@ == default_json@,
                None => false,
            },
    {
        PropertySchema {
            kind: self.kind,
            description: self.description,
            default_json: Some(String::from_str(default_json)),
        }
    }
}

/// An object schema: named properties, and which of them are required.
#[derive(Debug, Clone)]
pub struct JsonSchema {
    pub properties: Vec<(String, PropertySchema)>,
    pub required: Vec<String>,
}

impl JsonSchema {
    /// An empty object schema.
    pub fn new() -> (r: Self)
        ensures
            r.properties@.len() == 0,
            r.required@.len() == 0,
    {
        JsonSchema { properties: Vec::new(), required: Vec::new() }
    }

    /// The schema with one more property appended; a required property's
    /// name is also appended to the required list.
    pub fn add_property(self, name: &str, schema: PropertySchema, required: bool) -> (r: Self)
        ensures
            r.properties@ == self.properties@.push((r.properties@.last().0, schema)),
            r.properties@.len() == self.properties@.len() + 1,
            r.properties@.last().0@ == name@,
            r.properties@.last().1 == schema,
            required ==> r.required@.len() == self.required@.len() + 1 && r.required@.last()@
                == name@ && r.required@.drop_last() == self.required@,
            !required ==> r.required@ == self.required@,
    {
        let mut properties = self.properties;
        let mut required_list = self.required;
        properties.push((String::from_str(name), schema));
        if required {
            required_list.push(String::from_str(name));
        }
        JsonSchema { properties, required: required_list }
    }

    /// Whether a property name is in the required list.
    pub fn requires_property(&self, name: &str) -> (r: bool)
        ensures
            r == self.required@.map_values(|s: String| s@).contains(name@),
    {
        let ghost rv = self.required@.map_values(|s: String| s@);
        let n = self.required.len();
        let mut k: usize = 0;
        while k < n
            invariant
                k <= n,
                n == self.required@.len(),
                rv == self.required@.map_values(|s: String| s@),
                forall|j: int| 0 <= j < k ==> rv[j] != name@,
            decreases n - k,
        {
            if string_is(&self.required[k], name) {
                proof {
                    assert(rv[k as int] == name@);
                }
                return true;
            }
            k = k + 1;
        }
        proof {
            if rv.contains(name@) {
                let i = choose|i: int| 0 <= i < rv.len() && rv[i] == name@;
                assert(rv[i] != name@);
            }
        }
        false
    }
}

/// The definition of one tool: name, description, parameter schema.
#[derive(Debug, Clone)]
pub struct ToolDefinition {
    pub name: String,
    pub description: String,
    pub parameters: JsonSchema,
}

impl ToolDefinition {
    /// A definition with an empty parameter schema.
    pub fn new(name: &str, description: &str) -> (r: Self)
        ensures
            r.name@ == name@,
            r.description@ == description@,
            r.parameters.properties@.len() == 0,
            r.parameters.required@.len() == 0,
    {
        ToolDefinition {
            name: String::from_str(name),
            description: String::from_str(description),
            parameters: JsonSchema::new(),
        }
    }

    /// The definition with its parameter schema replaced.
    pub fn with_parameters(self, parameters: JsonSchema) -> (r: Self)
        ensures
            r.name@ == self.name@,
            r.description@ == self.description@,
            r.parameters == parameters,
    {
        ToolDefinition { name: self.name, description: self.description, parameters }
    }
}

/// The outcome one tool execution reports back to the model.
#[derive(Debug, Clone)]
pub struct ToolResult {
    pub success: bool,
    pub output: String,
    pub error: Option<String>,
}

impl ToolResult {
    /// A successful result carrying the output.
    pub fn success(output: String) -> (r: Self)
        ensures
            r.success,
            r.output@ == output@,
            r.error is None,
    {
        ToolResult { success: true, output, error: None }
    }

    /// A failed result carrying partial output and the error text.
    pub fn failure_with_output(output: String, error: String) -> (r: Self)
        ensures
            !r.success,
            r.output@ == output@,
            match r.error {
                Some(e) => e@ == error@,
                None => false,
            },
    {
        ToolResult { success: false, output, error: Some(error) }
    }
}

/// Why one tool execution could not produce a result.
#[derive(Debug, Clone)]
pub enum ToolError {
    /// The arguments do not fit the tool's schema.
    InvalidArguments(String),
    /// The execution itself failed.
    ExecutionFailed(String),
    /// The wait for the result expired.
    Timeout,
}

/// A registry of tool definitions; names are unique.
#[derive(Debug)]
pub struct ToolRegistry {
    definitions: Vec<ToolDefinition>,
}

impl ToolRegistry {
    /// The registered names, in registration order.
    pub closed spec fn names(&self) -> Seq<Seq<char>> {
        self.definitions@.map_values(|d: ToolDefinition| d.name@)
    }

    /// The registered definitions, in registration order.
    pub closed spec fn defs(&self) -> Seq<ToolDefinition> {
        self.definitions@
    }

    /// An empty registry.
    pub fn new() -> (r: Self)
        ensures
            r.defs().len() == 0,
    {
        ToolRegistry { definitions: Vec::new() }
    }

    /// Whether a tool of this name is registered.
    pub fn contains(&self, name: &str) -> (r: bool)
        ensures
            r == self.names().contains(name@),
    {
        let ghost nv = self.names();
        let n = self.definitions.len();
        let mut k: usize = 0;
        while k < n
            invariant
                k <= n,
                n == self.definitions@.len(),
                nv == self.names(),
                nv.len() == n,
                forall|j: int| 0 <= j < n ==> nv[j] == self.definitions@[j].name@,
                forall|j: int| 0 <= j < k ==> nv[j] != name@,
            decreases n - k,
        {
            if string_is(&self.definitions[k].name, name) {
                proof {
                    assert(nv[k as int] == name@);
                }
                return true;
            }
            k = k + 1;
        }
        proof {
            if nv.contains(name@) {
                let i = choose|i: int| 0 <= i < nv.len() && nv[i] == name@;
                assert(nv[i] != name@);
            }
        }
        false
    }

    /// Registers one definition; a name already taken is refused and the
    /// registry is unchanged.
    pub fn register(&mut self, definition: ToolDefinition) -> (r: Result<(), ToolDefinition>)
        ensures
            match r {
                Ok(()) => !old(self).names().contains(definition.name@) && final(self).defs()
                    == old(self).defs().push(definition),
                Err(d) => old(self).names().contains(definition.name@) && final(self).defs()
                    == old(self).defs() && d == definition,
            },
    {
        if self.contains(definition.name.as_str()) {
            Err(definition)
        } else {
            self.definitions.push(definition);
            Ok(())
        }
    }

    /// Number of registered tools.
    pub fn len(&self) -> (r: usize)
        ensures
            r == self.defs().len(),
    {
        self.definitions.len()
    }

    /// The registered names, as strings.
    pub fn list_names(&self) -> (r: Vec<String>)
        ensures
            r@.map_values(|s: String| s@) == self.names(),
    {
        let mut out: Vec<String> = Vec::new();
        let n = self.definitions.len();
        let mut k: usize = 0;
        proof {
            assert(out@.map_values(|s: String| s@) =~= self.names().take(0));
        }
        while k < n
            invariant
                k <= n,
                n == self.definitions@.len(),
                self.names().len() == n,
                out@.map_values(|s: String| s@) == self.names().take(k as int),
            decreases n - k,
        {
            let ghost ov0 = out@.map_values(|s: String| s@);
            out.push(self.definitions[k].name.clone());
            proof {
                let ov = out@.map_values(|s: String| s@);
                assert(ov.drop_last() =~= ov0);
                assert(ov[ov.len() - 1] == out@[out@.len() - 1]@);
                assert(self.names()[k as int] == self.definitions@[k as int].name@);
                assert(ov =~= self.names().take(k + 1));
            }
            k = k + 1;
        }
        proof {
            assert(self.names().take(n as int) =~= self.names());
        }
        out
    }

    /// The definition at one position.
    pub fn definition_at(&self, i: usize) -> (r: &ToolDefinition)
        requires
            i < self.defs().len(),
        ensures
            *r == self.defs()[i as int],
    {
        &self.definitions[i]
    }
}

} // verus!
