use veritas_sdr::k8s::types::{
    validate_image, validate_model_id, validate_path, validate_socket_path, GpuSpec, ModelSource,
    ValidationError, VeritasModelSpec, VeritasRuntimeSpec,
};

#[test]
fn test_debug_traits() {
    let gpu = GpuSpec { count: 1, resource_type: "nvidia.com/gpu".to_string() };
    let debug_str = format!("{:?}", gpu);
    assert!(debug_str.contains("GpuSpec"));
    assert!(debug_str.contains("nvidia.com/gpu"));
}

#[test]
fn test_validate_path_traversal() {
    assert!(validate_path("/models/test.gguf", "path").is_ok());
    assert!(validate_path("models/test.gguf", "path").is_ok());
    assert!(matches!(
        validate_path("../../../etc/passwd", "path"),
        Err(ValidationError::PathTraversal(_))
    ));
    assert!(matches!(
        validate_path("models/../../secret", "path"),
        Err(ValidationError::PathTraversal(_))
    ));
}

#[test]
fn test_validate_path_null_byte() {
    assert!(matches!(
        validate_path("models/test\0.gguf", "path"),
        Err(ValidationError::InvalidPath(_))
    ));
}

#[test]
fn test_validate_path_empty() {
    assert!(matches!(validate_path("", "path"), Err(ValidationError::EmptyField(_))));
}

#[test]
fn test_validate_image_valid() {
    assert!(validate_image("veritas-spark:0.5.0").is_ok());
    assert!(validate_image("registry.io/veritas-spark:latest").is_ok());
    assert!(validate_image("veritas-spark").is_ok());
}

#[test]
fn test_validate_image_injection() {
    assert!(matches!(validate_image("veritas; rm -rf /"), Err(ValidationError::InvalidImage(_))));
    assert!(matches!(
        validate_image("veritas && cat /etc/passwd"),
        Err(ValidationError::InvalidImage(_))
    ));
    assert!(matches!(validate_image("veritas`whoami`"), Err(ValidationError::InvalidImage(_))));
    assert!(matches!(validate_image("$(cat /etc/passwd)"), Err(ValidationError::InvalidImage(_))));
}

#[test]
fn test_validate_image_empty() {
    assert!(matches!(validate_image(""), Err(ValidationError::EmptyField(_))));
}

#[test]
fn test_validate_model_id_valid() {
    assert!(validate_model_id("llama-7b").is_ok());
    assert!(validate_model_id("model_v2.0").is_ok());
    assert!(validate_model_id("my-model-123").is_ok());
}

#[test]
fn test_validate_model_id_invalid() {
    assert!(matches!(validate_model_id("models/llama"), Err(ValidationError::InvalidModelId(_))));
    assert!(matches!(validate_model_id("model;drop"), Err(ValidationError::InvalidModelId(_))));
    assert!(matches!(validate_model_id(""), Err(ValidationError::EmptyField(_))));
}

#[test]
fn test_validate_socket_path_valid() {
    assert!(validate_socket_path("/var/run/veritas.sock").is_ok());
    assert!(validate_socket_path("/tmp/socket").is_ok());
}

#[test]
fn test_validate_socket_path_invalid() {
    assert!(matches!(
        validate_socket_path("var/run/veritas.sock"),
        Err(ValidationError::InvalidSocketPath(_))
    ));
    assert!(matches!(
        validate_socket_path("/var/../etc/passwd"),
        Err(ValidationError::PathTraversal(_))
    ));
    assert!(matches!(
        validate_socket_path("/var/run\0/veritas.sock"),
        Err(ValidationError::InvalidSocketPath(_))
    ));
}

#[test]
fn test_runtime_spec_validate() {
    let valid_spec = VeritasRuntimeSpec {
        replicas: 2,
        image: "veritas-spark:0.5.0".to_string(),
        memory: "4Gi".to_string(),
        cpu: "2".to_string(),
        gpu: None,
        model_pvc: "models-pvc".to_string(),
        socket_path: Some("/var/run/veritas.sock".to_string()),
    };
    assert!(valid_spec.validate().is_ok());
    let invalid_image = VeritasRuntimeSpec {
        replicas: 2,
        image: "veritas; rm -rf /".to_string(),
        memory: "4Gi".to_string(),
        cpu: "2".to_string(),
        gpu: None,
        model_pvc: "models-pvc".to_string(),
        socket_path: None,
    };
    assert!(invalid_image.validate().is_err());
}

#[test]
fn test_model_spec_validate() {
    let valid_spec = VeritasModelSpec {
        model_id: "llama-7b".to_string(),
        version: "1.0.0".to_string(),
        source: ModelSource { pvc: "models-pvc".to_string(), path: "/models/llama.gguf".to_string() },
        variant: Some("control".to_string()),
        auto_load: true,
    };
    assert!(valid_spec.validate().is_ok());
    let invalid_model_id = VeritasModelSpec {
        model_id: "llama/../../../etc/passwd".to_string(),
        version: "1.0.0".to_string(),
        source: ModelSource { pvc: "models-pvc".to_string(), path: "/models/llama.gguf".to_string() },
        variant: None,
        auto_load: true,
    };
    assert!(invalid_model_id.validate().is_err());
}

#[test]
fn test_model_source_validate() {
    let valid_source =
        ModelSource { pvc: "models-pvc".to_string(), path: "/models/test.gguf".to_string() };
    assert!(valid_source.validate().is_ok());
    let traversal_source =
        ModelSource { pvc: "models-pvc".to_string(), path: "../../../etc/passwd".to_string() };
    assert!(traversal_source.validate().is_err());
}

#[test]
fn validation_error_messages() {
    assert_eq!(
        ValidationError::EmptyField("image".to_string()).message(),
        "Field 'image' cannot be empty"
    );
}

#[test]
fn over_long_fields_are_refused() {
    let long = "a".repeat(300);
    assert!(validate_model_id(&long).is_err());
    assert!(validate_model_id(&"a".repeat(253)).is_ok());
}
