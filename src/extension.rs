//! Extension types stored in and extracted from requests and responses.
use std::ops::Deref;
use vstd::prelude::*;

verus! {

/// Records the operation a request was routed to: its model namespace and
/// operation name.
#[derive(Debug, Clone)]
pub struct OperationExtension {
    namespace: &'static str,
    operation_name: &'static str,
}

impl OperationExtension {
    /// The model namespace.
    pub closed spec fn spec_namespace(&self) -> Seq<char> {
        self.namespace@
    }

    /// The operation name.
    pub closed spec fn spec_operation_name(&self) -> Seq<char> {
        self.operation_name@
    }

    /// Creates a new `OperationExtension`.
    pub fn new(namespace: &'static str, operation_name: &'static str) -> (r: Self)
        ensures
            r.spec_namespace() == namespace@,
            r.spec_operation_name() == operation_name@,
    {
        OperationExtension { namespace, operation_name }
    }

    /// The operation formatted as `<namespace>#<operation_name>`.
    pub fn operation(&self) -> (r: String)
        ensures
            r@ == self.spec_namespace() + "#"@ + self.spec_operation_name(),
    {
        self.namespace.to_owned().concat("#").concat(self.operation_name)
    }
}

/// Records the name of the modeled error an operation handler returned.
#[derive(Debug, Clone)]
pub struct ModeledErrorExtension(&'static str);

impl ModeledErrorExtension {
    /// The error name.
    pub closed spec fn spec_value(&self) -> Seq<char> {
        self.0@
    }

    /// Creates a new `ModeledErrorExtension`.
    pub fn new(value: &'static str) -> (r: ModeledErrorExtension)
        ensures
            r.spec_value() == value@,
    {
        ModeledErrorExtension(value)
    }
}

impl Deref for ModeledErrorExtension {
    type Target = &'static str;

    fn deref(&self) -> (r: &Self::Target)
        ensures
            r@ == self.spec_value(),
    {
        &self.0
    }
}

/// Records the name of the runtime error that occurred while handling a
/// request.
#[derive(Debug, Clone)]
pub struct RuntimeErrorExtension(String);

impl RuntimeErrorExtension {
    /// The error name.
    pub closed spec fn spec_value(&self) -> Seq<char> {
        self.0@
    }

    /// Creates a new `RuntimeErrorExtension`.
    pub fn new(value: String) -> (r: RuntimeErrorExtension)
        ensures
            r.spec_value() == value@,
    {
        RuntimeErrorExtension(value)
    }
}

impl Deref for RuntimeErrorExtension {
    type Target = String;

    fn deref(&self) -> (r: &Self::Target)
        ensures
            r@ == self.spec_value(),
    {
        &self.0
    }
}

/// A value stored in and extracted from request extensions.
#[derive(Debug, Clone)]
pub struct Extension<T>(pub T);

impl<T> Deref for Extension<T> {
    type Target = T;

    fn deref(&self) -> (r: &Self::Target)
        ensures
            *r == self.0,
    {
        &self.0
    }
}

/// Why an extension could not be extracted from a request.
#[derive(Debug)]
pub enum RequestExtensionNotFoundRejection {
    /// No extension of the requested type was stored; the message names the type.
    MissingExtension(String),
}

/// The message of a missing extension of the type named `named_type`.
pub open spec fn missing_extension_message(named_type: Seq<char>) -> Seq<char> {
    "Extension of type `"@ + named_type + "` was not found. Perhaps you forgot to add it?"@
}

/// The outcome of looking up an extension of the type named `named_type`:
/// the value found, or a rejection naming the type.
pub fn extension_or_rejection<T>(found: Option<T>, named_type: &str) -> (r: Result<
    Extension<T>,
    RequestExtensionNotFoundRejection,
>)
    ensures
        match found {
            Some(v) => r == Ok::<Extension<T>, RequestExtensionNotFoundRejection>(Extension(v)),
            None => match r {
                Err(RequestExtensionNotFoundRejection::MissingExtension(m)) => m@
                    == missing_extension_message(named_type@),
                Ok(_) => false,
            },
        },
{
    match found {
        Some(v) => Ok(Extension(v)),
        None => {
            let message = "Extension of type `".to_owned().concat(named_type).concat(
                "` was not found. Perhaps you forgot to add it?",
            );
            Err(RequestExtensionNotFoundRejection::MissingExtension(message))
        },
    }
}

} // verus!
