use profile_region::{
    extension_or_rejection, ModeledErrorExtension, OperationExtension,
    RequestExtensionNotFoundRejection, RuntimeErrorExtension,
};

#[test]
fn operation_is_namespace_hash_name() {
    let ext = OperationExtension::new("com.amazonaws.ebs", "CompleteSnapshot");
    assert_eq!(ext.operation(), "com.amazonaws.ebs#CompleteSnapshot");
}

#[test]
fn operation_with_empty_parts() {
    assert_eq!(OperationExtension::new("", "").operation(), "#");
}

#[test]
fn error_extensions_hold_their_names() {
    let modeled = ModeledErrorExtension::new("ValidationException");
    assert_eq!(*modeled, "ValidationException");
    let runtime = RuntimeErrorExtension::new("UnsupportedMediaType".to_string());
    assert_eq!(runtime.as_str(), "UnsupportedMediaType");
}

#[test]
fn found_extension_is_returned() {
    let r = extension_or_rejection(Some(7u32), "u32");
    assert_eq!(*r.ok().unwrap(), 7);
}

#[test]
fn missing_extension_is_rejected() {
    let r = extension_or_rejection::<u32>(None, "u32");
    match r {
        Err(RequestExtensionNotFoundRejection::MissingExtension(m)) => assert_eq!(
            m,
            "Extension of type `u32` was not found. Perhaps you forgot to add it?"
        ),
        Ok(_) => panic!("expected a rejection"),
    }
}
