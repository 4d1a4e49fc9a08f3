use vstd::prelude::*;

verus! {

/// A builder option that must be set before a window can be built.
#[derive(Clone, Copy, Debug, PartialEq, Eq, Structural)]
pub enum Field {
    Content,
    UserData,
    InvokeHandler,
}

impl Field {
    /// The option's name as it is written on the builder.
    pub fn name(&self) -> (r: &'static str)
        ensures
            *self == Field::Content ==> r@ == "content"@,
            *self == Field::UserData ==> r@ == "user_data"@,
            *self == Field::InvokeHandler ==> r@ == "invoke_handler"@,
    {
        match self {
            Field::Content => "content",
            Field::UserData => "user_data",
            Field::InvokeHandler => "invoke_handler",
        }
    }
}

/// Everything that can go wrong, as plain values.
#[derive(Clone, Copy, Debug, PartialEq, Eq, Structural)]
pub enum Error {
    /// The native window refused to initialise.
    Initialization,
    /// The window was torn down before the closure could be scheduled.
    Dispatch,
    /// The native layer reported a failure while evaluating a script.
    JsEvaluation,
    /// The native layer reported a failure while injecting a style sheet.
    CssInjection,
    /// A required builder option was never set.
    UninitializedField(Field),
    /// A text holds a zero byte and cannot be handed to the native layer.
    StringConversion,
}

/// The result type of every fallible operation of the library.
pub type WVResult<T = ()> = Result<T, Error>;

} // verus!
