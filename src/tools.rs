use vstd::prelude::*;
use std::collections::HashMap;
use crate::outside::{json_list, json_object, json_text, now_millis};
use crate::states::ToolRun;
use crate::text::joined;
use crate::types::ToolCall;

verus! {

/// How a tool is described to the model.
#[derive(Debug)]
pub struct ToolSchema {
    pub name: String,
    pub description: String,
    pub input_schema: serde_json::Value,
}

/// The code behind a tool: JSON arguments in, a result text or an error text out.
pub trait ToolFunction {
    fn invoke(&self, args: &HashMap<String, serde_json::Value>) -> Result<String, String>;
}

/// What the engine needs of the tools: their descriptions, and running one
/// call or a batch of calls (one outcome per call, in order; an implementation
/// may run a batch concurrently).
pub trait ToolExecutor {
    fn schemas(&self) -> Vec<&ToolSchema>;

    fn execute(&self, name: &str, args: &HashMap<String, serde_json::Value>) -> Result<String, String>;

    fn execute_batch(&self, calls: &Vec<ToolCall>) -> Vec<ToolRun>;
}

struct ToolEntry<F> {
    schema: ToolSchema,
    func: F,
}

/// The text of the error for a tool name that nothing is registered under.
pub open spec fn missing_tool_text(name: Seq<char>) -> Seq<char> {
    "Tool '"@ + name + "' not found in registry"@
}

/// Tools by name; registering a name again replaces the earlier tool.
pub struct ToolRegistry<F> {
    entries: Vec<ToolEntry<F>>,
}

impl<F> ToolRegistry<F> {
    /// The registered names, in order of first registration.
    pub closed spec fn names(&self) -> Seq<Seq<char>> {
        self.entries@.map_values(|e: ToolEntry<F>| e.schema.name@)
    }

    pub open spec fn has_spec(&self, name: Seq<char>) -> bool {
        self.names().contains(name)
    }

    pub fn new() -> (r: Self)
        ensures
            r.names().len() == 0,
    {
        ToolRegistry { entries: Vec::new() }
    }

    /// The position of `name`, if registered.
    fn find(&self, name: &str) -> (r: Option<usize>)
        ensures
            r.is_none() == !self.has_spec(name@),
            r.is_some() ==> r.unwrap() < self.names().len() && self.names()[r.unwrap() as int] == name@,
    {
        let key = String::from_str(name);
        let mut i: usize = 0;
        while i < self.entries.len()
            invariant
                i <= self.entries@.len(),
                key@ == name@,
                forall|j: int| 0 <= j < i ==> #[trigger] self.entries@[j].schema.name@ != name@,
            decreases self.entries@.len() - i,
        {
            if self.entries[i].schema.name.eq(&key) {
                proof {
                    assert(self.names()[i as int] == name@);
                }
                return Some(i);
            }
            i = i + 1;
        }
        proof {
            if self.has_spec(name@) {
                let k = choose|k: int| 0 <= k < self.names().len() && self.names()[k] == name@;
                assert(self.entries@[k].schema.name@ == name@);
            }
        }
        None
    }

    /// Registers a tool under `name`, replacing a tool of that name.
    pub fn register(&mut self, name: &str, description: &str, schema: serde_json::Value, func: F)
        ensures
            forall|n: Seq<char>| #[trigger] final(self).has_spec(n) == (old(self).has_spec(n) || n == name@),
    {
        let entry = ToolEntry {
            schema: ToolSchema {
                name: String::from_str(name),
                description: String::from_str(description),
                input_schema: schema,
            },
            func,
        };
        let ghost before = self.names();
        match self.find(name) {
            Some(i) => {
                self.entries.remove(i);
                self.entries.insert(i, entry);
                proof {
                    assert(self.names() =~= before.update(i as int, name@));
                    assert forall|n: Seq<char>| #[trigger] self.has_spec(n) == (before.contains(n) || n == name@) by {
                        if n == name@ {
                            assert(self.names()[i as int] == n);
                        }
                        if before.contains(n) {
                            let k = choose|k: int| 0 <= k < before.len() && before[k] == n;
                            if k != i {
                                assert(self.names()[k] == n);
                            }
                        }
                        if self.has_spec(n) {
                            let k = choose|k: int| 0 <= k < self.names().len() && self.names()[k] == n;
                            if k != i {
                                assert(before[k] == n);
                            }
                        }
                    }
                }
            },
            None => {
                self.entries.push(entry);
                proof {
                    assert(self.names() =~= before.push(name@));
                    assert forall|n: Seq<char>| #[trigger] self.has_spec(n) == (before.contains(n) || n == name@) by {
                        if n == name@ {
                            assert(self.names()[before.len() as int] == n);
                        }
                        if before.contains(n) {
                            let k = choose|k: int| 0 <= k < before.len() && before[k] == n;
                            assert(self.names()[k] == n);
                        }
                        if self.has_spec(n) {
                            let k = choose|k: int| 0 <= k < self.names().len() && self.names()[k] == n;
                            if k < before.len() {
                                assert(before[k] == n);
                            }
                        }
                    }
                }
            },
        }
    }

    /// Registers a tool made with the [`Tool`] builder; it must carry its code.
    pub fn register_tool(&mut self, tool: Tool<F>)
        requires
            tool.func.is_some(),
        ensures
            forall|n: Seq<char>| #[trigger] final(self).has_spec(n) == (old(self).has_spec(n) || n == tool.name@),
    {
        let schema = tool.input_schema();
        let Tool { name, description, params: _, func } = tool;
        match func {
            Some(f) => self.register(name.as_str(), description.as_str(), schema, f),
            None => {},
        }
    }

    pub fn has(&self, name: &str) -> (r: bool)
        ensures
            r == self.has_spec(name@),
    {
        self.find(name).is_some()
    }

    /// The code registered under `name`, or the missing-tool error.
    pub fn get(&self, name: &str) -> (r: Result<&F, String>)
        ensures
            r is Ok == self.has_spec(name@),
            r is Err ==> r->Err_0@ == missing_tool_text(name@),
    {
        match self.find(name) {
            Some(i) => Ok(&self.entries[i].func),
            None => {
                let mut msg = joined("Tool '", name);
                msg.append("' not found in registry");
                Err(msg)
            },
        }
    }

    pub fn schemas(&self) -> (r: Vec<&ToolSchema>)
        ensures
            r@.len() == self.names().len(),
            forall|i: int| 0 <= i < r@.len() ==> (#[trigger] r@[i]).name@ == self.names()[i],
    {
        let mut r: Vec<&ToolSchema> = Vec::new();
        let mut i: usize = 0;
        while i < self.entries.len()
            invariant
                i <= self.entries@.len(),
                r@.len() == i,
                forall|j: int| 0 <= j < i ==> (#[trigger] r@[j]).name@ == self.entries@[j].schema.name@,
            decreases self.entries@.len() - i,
        {
            r.push(&self.entries[i].schema);
            i = i + 1;
        }
        r
    }

    pub fn len(&self) -> (r: usize)
        ensures
            r == self.names().len(),
    {
        self.entries.len()
    }

    pub fn is_empty(&self) -> (r: bool)
        ensures
            r == (self.names().len() == 0),
    {
        self.entries.len() == 0
    }
}

impl<F: ToolFunction> ToolRegistry<F> {
    /// Runs the tool `name` on `args`. A name that nothing is registered
    /// under gives the missing-tool error, never a panic.
    pub fn execute(&self, name: &str, args: &HashMap<String, serde_json::Value>) -> (r: Result<String, String>)
        ensures
            !self.has_spec(name@) ==> r == Err::<String, String>(r->Err_0) && r->Err_0@ == missing_tool_text(name@),
    {
        match self.get(name) {
            Ok(f) => f.invoke(args),
            Err(e) => Err(e),
        }
    }
}

impl<F: ToolFunction> ToolExecutor for ToolRegistry<F> {
    fn schemas(&self) -> Vec<&ToolSchema> {
        ToolRegistry::schemas(self)
    }

    fn execute(&self, name: &str, args: &HashMap<String, serde_json::Value>) -> Result<String, String> {
        ToolRegistry::execute(self, name, args)
    }

    /// Runs the calls one after the other.
    fn execute_batch(&self, calls: &Vec<ToolCall>) -> Vec<ToolRun> {
        let mut runs: Vec<ToolRun> = Vec::new();
        let mut i: usize = 0;
        while i < calls.len()
            invariant
                i <= calls@.len(),
                runs@.len() == i,
            decreases calls@.len() - i,
        {
            let start = now_millis();
            let result = ToolRegistry::execute(self, calls[i].name.as_str(), &calls[i].args);
            let end = now_millis();
            let latency_ms: u64 = if start >= 0 && end >= start { (end - start) as u64 } else { 0 };
            runs.push(ToolRun { result, latency_ms });
            i = i + 1;
        }
        runs
    }
}

/// One declared parameter of a [`Tool`].
#[derive(Debug, Clone)]
pub struct ToolParam {
    pub name: String,
    pub param_type: String,
    pub description: String,
    pub required: bool,
}

/// Builder for a tool: name, description, parameters, then its code.
pub struct Tool<F> {
    pub name: String,
    pub description: String,
    pub params: Vec<ToolParam>,
    pub func: Option<F>,
}

impl<F> Tool<F> {
    pub fn new(name: &str, description: &str) -> (r: Self)
        ensures
            r.name@ == name@,
            r.description@ == description@,
            r.params@.len() == 0,
            r.func.is_none(),
    {
        Tool { name: String::from_str(name), description: String::from_str(description), params: Vec::new(), func: None }
    }

    fn with_param(self, name: &str, param_type: &str, description: &str, required: bool) -> (r: Self)
        ensures
            r.name == self.name,
            r.description == self.description,
            r.func == self.func,
            r.params@.len() == self.params@.len() + 1,
            r.params@.drop_last() == self.params@,
            r.params@.last().name@ == name@,
            r.params@.last().param_type@ == param_type@,
            r.params@.last().description@ == description@,
            r.params@.last().required == required,
    {
        let mut params = self.params;
        let ghost before = params@;
        params.push(
            ToolParam {
                name: String::from_str(name),
                param_type: String::from_str(param_type),
                description: String::from_str(description),
                required,
            },
        );
        proof {
            assert(params@.drop_last() =~= before);
        }
        Tool { name: self.name, description: self.description, params, func: self.func }
    }

    /// Adds a required parameter.
    pub fn param(self, name: &str, param_type: &str, description: &str) -> (r: Self)
        ensures
            r.name == self.name,
            r.func == self.func,
            r.params@.drop_last() == self.params@,
            r.params@.len() == self.params@.len() + 1,
            r.params@.last().name@ == name@,
            r.params@.last().required,
    {
        self.with_param(name, param_type, description, true)
    }

    /// Adds an optional parameter.
    pub fn param_opt(self, name: &str, param_type: &str, description: &str) -> (r: Self)
        ensures
            r.name == self.name,
            r.func == self.func,
            r.params@.drop_last() == self.params@,
            r.params@.len() == self.params@.len() + 1,
            r.params@.last().name@ == name@,
            !r.params@.last().required,
    {
        self.with_param(name, param_type, description, false)
    }

    /// Attaches the tool's code.
    pub fn call(self, f: F) -> (r: Self)
        ensures
            r.name == self.name,
            r.description == self.description,
            r.params == self.params,
            r.func == Some(f),
    {
        Tool { name: self.name, description: self.description, params: self.params, func: Some(f) }
    }

    /// The names of the required parameters, in order.
    pub fn required_params(&self) -> (r: Vec<String>)
        ensures
            r@.map_values(|s: String| s@) == self.params@.filter(|p: ToolParam| p.required).map_values(
                |p: ToolParam| p.name@,
            ),
    {
        let mut r: Vec<String> = Vec::new();
        let mut i: usize = 0;
        while i < self.params.len()
            invariant
                i <= self.params@.len(),
                r@.map_values(|s: String| s@) == self.params@.take(i as int).filter(|p: ToolParam| p.required).map_values(
                    |p: ToolParam| p.name@,
                ),
            decreases self.params@.len() - i,
        {
            let ghost before = r@;
            proof {
                let t = self.params@.take(i + 1);
                assert(t.drop_last() =~= self.params@.take(i as int));
                assert(t.last() == self.params@[i as int]);
                reveal(Seq::filter);
            }
            if self.params[i].required {
                r.push(self.params[i].name.clone());
                proof {
                    assert(r@.map_values(|s: String| s@) =~= before.map_values(|s: String| s@).push(
                        self.params@[i as int].name@,
                    ));
                }
            }
            i = i + 1;
        }
        proof {
            assert(self.params@.take(i as int) =~= self.params@);
        }
        r
    }

    /// The schema of the parameters as plain values: one property per
    /// parameter, in order, and the names of the required ones.
    pub fn schema(&self) -> (r: ObjectSchema)
        ensures
            r.properties@.len() == self.params@.len(),
            forall|i: int| 0 <= i < self.params@.len() ==> {
                let p = #[trigger] self.params@[i];
                &&& r.properties@[i].name == p.name
                &&& r.properties@[i].param_type == p.param_type
                &&& r.properties@[i].description == p.description
            },
            r.required@.map_values(|s: String| s@) == self.params@.filter(|p: ToolParam| p.required).map_values(
                |p: ToolParam| p.name@,
            ),
    {
        let mut properties: Vec<PropertySchema> = Vec::new();
        let mut i: usize = 0;
        while i < self.params.len()
            invariant
                i <= self.params@.len(),
                properties@.len() == i,
                forall|k: int| 0 <= k < i ==> {
                    let p = #[trigger] self.params@[k];
                    &&& properties@[k].name == p.name
                    &&& properties@[k].param_type == p.param_type
                    &&& properties@[k].description == p.description
                },
            decreases self.params@.len() - i,
        {
            let p = &self.params[i];
            properties.push(
                PropertySchema { name: p.name.clone(), param_type: p.param_type.clone(), description: p.description.clone() },
            );
            i = i + 1;
        }
        ObjectSchema { properties, required: self.required_params() }
    }

    /// The JSON form of [`Tool::schema`]:
    /// `{"type": "object", "properties": {..}, "required": [..]}`.
    pub fn input_schema(&self) -> serde_json::Value {
        let schema = self.schema();
        let mut properties: Vec<(String, serde_json::Value)> = Vec::new();
        let mut i: usize = 0;
        while i < schema.properties.len()
            invariant
                i <= schema.properties@.len(),
            decreases schema.properties@.len() - i,
        {
            let p = &schema.properties[i];
            let mut fields: Vec<(String, serde_json::Value)> = Vec::new();
            fields.push((String::from_str("type"), json_text(p.param_type.clone())));
            fields.push((String::from_str("description"), json_text(p.description.clone())));
            properties.push((p.name.clone(), json_object(fields)));
            i = i + 1;
        }
        let mut required: Vec<serde_json::Value> = Vec::new();
        let mut j: usize = 0;
        while j < schema.required.len()
            invariant
                j <= schema.required@.len(),
            decreases schema.required@.len() - j,
        {
            required.push(json_text(schema.required[j].clone()));
            j = j + 1;
        }
        let mut members: Vec<(String, serde_json::Value)> = Vec::new();
        members.push((String::from_str("type"), json_text(String::from_str("object"))));
        members.push((String::from_str("properties"), json_object(properties)));
        members.push((String::from_str("required"), json_list(required)));
        json_object(members)
    }
}

/// One property of an object schema.
#[derive(Debug, Clone)]
pub struct PropertySchema {
    pub name: String,
    pub param_type: String,
    pub description: String,
}

/// An object schema: its properties and the names of the required ones.
#[derive(Debug, Clone)]
pub struct ObjectSchema {
    pub properties: Vec<PropertySchema>,
    pub required: Vec<String>,
}

} // verus!
