//! The sample scalar function that the C++ extension loader registers.

use vstd::prelude::*;
use crate::text::text_eq;
use crate::types::LogicalTypeId;

verus! {

/// How the loader registers the scalar function.
pub struct ScalarRegistration {
    /// Name of the function.
    pub function_name: String,
    /// Schema that receives it.
    pub schema: String,
    /// Its argument types.
    pub arguments: Vec<LogicalTypeId>,
    /// Its return type.
    pub return_type: LogicalTypeId,
}

/// The loader registers `function_name` in schema `main`, taking one
/// VARCHAR and returning VARCHAR.
pub fn scalar_registration() -> (r: ScalarRegistration)
    ensures
        r.function_name@ == "function_name"@,
        r.schema@ == "main"@,
        r.arguments@ == seq![LogicalTypeId::Varchar],
        r.return_type == LogicalTypeId::Varchar,
{
    let mut arguments: Vec<LogicalTypeId> = Vec::new();
    arguments.push(LogicalTypeId::Varchar);
    assert(arguments@ =~= seq![LogicalTypeId::Varchar]);
    ScalarRegistration {
        function_name: "function_name".to_owned(),
        schema: "main".to_owned(),
        arguments,
        return_type: LogicalTypeId::Varchar,
    }
}

/// What one call of the scalar function does.
pub struct BinderOutput {
    /// The value that the result vector is set to refer to.
    pub result_value: String,
    /// The C string that the call returns, if any.
    pub reply: Option<String>,
}

/// The scalar function on the first value of its argument: the result
/// vector refers to the value "hello", and the call returns the string
/// "hello" when the argument is "frogs" and no string otherwise.
pub fn binder(arg: &str) -> (r: BinderOutput)
    ensures
        r.result_value@ == "hello"@,
        arg@ == "frogs"@ ==> (r.reply matches Some(s) && s@ == "hello"@),
        arg@ != "frogs"@ ==> r.reply is None,
{
    let result_value = "hello".to_owned();
    let reply = if text_eq(arg, "frogs") {
        Some("hello".to_owned())
    } else {
        None
    };
    BinderOutput { result_value, reply }
}

} // verus!
