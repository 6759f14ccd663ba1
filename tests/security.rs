use container_codes::error::Error;
use container_codes::security::{
    generate_api_key, hash_api_key, sanitize_filename, validate_container_name,
    validate_environment_variables, validate_image_name, validate_password, JwtClaims,
    SecurityContext,
};
use std::collections::HashMap;

#[test]
fn test_validate_password() {
    assert!(validate_password("Password123!").is_ok());
    assert!(validate_password("short").is_err());
    assert!(validate_password("nouppercase123!").is_err());
    assert!(validate_password("NOLOWERCASE123!").is_err());
    assert!(validate_password("NoDigits!").is_err());
    assert!(validate_password("NoSpecial123").is_err());
}

#[test]
fn test_validate_container_name() {
    assert!(validate_container_name("my-container").is_ok());
    assert!(validate_container_name("my_container_123").is_ok());
    assert!(validate_container_name("").is_err());
    assert!(validate_container_name("-invalid").is_err());
    assert!(validate_container_name("invalid-").is_err());
    assert!(validate_container_name("invalid@name").is_err());
}

#[test]
fn test_sanitize_filename() {
    assert_eq!(sanitize_filename("test file.txt"), "testfile.txt");
    assert_eq!(sanitize_filename("file@#$%.pdf"), "file.pdf");
    assert_eq!(sanitize_filename("my_file-2.txt"), "my_file-2.txt");
}

fn validation_message(r: Result<(), Error>) -> String {
    match r {
        Err(Error::Validation(m)) => m,
        _ => panic!("expected a validation error"),
    }
}

#[test]
fn sanitize_upload_name_with_space_and_bang() {
    assert_eq!(sanitize_filename("my file!.txt"), "myfile.txt");
    assert_eq!(sanitize_filename(""), "");
    assert_eq!(sanitize_filename("../../etc/passwd"), "....etcpasswd");
    assert_eq!(sanitize_filename("résumé.pdf"), "résumé.pdf");
}

#[test]
fn password_errors_name_the_first_missing_class() {
    assert_eq!(
        validation_message(validate_password("short")),
        "Password must be at least 8 characters long"
    );
    assert_eq!(
        validation_message(validate_password("nouppercase123!")),
        "Password must contain at least one uppercase letter"
    );
    assert_eq!(
        validation_message(validate_password("NOLOWERCASE123!")),
        "Password must contain at least one lowercase letter"
    );
    assert_eq!(
        validation_message(validate_password("NoDigits!")),
        "Password must contain at least one digit"
    );
    assert_eq!(
        validation_message(validate_password("NoSpecial123")),
        "Password must contain at least one special character"
    );
}

#[test]
fn container_name_length_limit_counts_bytes() {
    let ok = "a".repeat(63);
    let long = "a".repeat(64);
    assert!(validate_container_name(&ok).is_ok());
    assert_eq!(
        validation_message(validate_container_name(&long)),
        "Container name cannot be longer than 63 characters"
    );
    assert_eq!(
        validation_message(validate_container_name("invalid@name")),
        "Container name can only contain alphanumeric characters, hyphens, and underscores"
    );
    assert_eq!(
        validation_message(validate_container_name("-x")),
        "Container name cannot start or end with a hyphen"
    );
}

#[test]
fn image_names() {
    assert!(validate_image_name("nginx:latest").is_ok());
    assert!(validate_image_name("registry.example.com/app").is_ok());
    assert_eq!(validation_message(validate_image_name("")), "Image name cannot be empty");
    assert_eq!(validation_message(validate_image_name("a/../b")), "Invalid image name format");
    assert_eq!(validation_message(validate_image_name("a//b")), "Invalid image name format");
}

#[test]
fn environment_variable_names() {
    let mut env = HashMap::new();
    env.insert("PATH".to_string(), "/usr/bin".to_string());
    env.insert("MY_VAR_2".to_string(), "x".to_string());
    assert!(validate_environment_variables(&env).is_ok());

    let mut bad = HashMap::new();
    bad.insert("1ABC".to_string(), "x".to_string());
    assert_eq!(
        validation_message(validate_environment_variables(&bad)),
        "Environment variable names cannot start with a number"
    );

    let mut empty = HashMap::new();
    empty.insert(String::new(), "x".to_string());
    assert_eq!(
        validation_message(validate_environment_variables(&empty)),
        "Environment variable name cannot be empty"
    );

    let mut dash = HashMap::new();
    dash.insert("A-B".to_string(), "x".to_string());
    assert_eq!(
        validation_message(validate_environment_variables(&dash)),
        "Environment variable names can only contain alphanumeric characters and underscores"
    );
    assert!(validate_environment_variables(&HashMap::new()).is_ok());
}

#[test]
fn api_key_hash_is_hex_sha256() {
    assert_eq!(
        hash_api_key("abc"),
        "ba7816bf8f01cfea414140de5dae2223b00361a396177a9cb410ff61f20015ad"
    );
    assert_eq!(hash_api_key("abc").len(), 64);
}

#[test]
fn generated_api_keys_are_prefixed_and_fresh() {
    let a = generate_api_key();
    let b = generate_api_key();
    assert!(a.starts_with("cc_"));
    assert_eq!(a.len(), 35);
    assert_ne!(a, b);
}

#[test]
fn permissions_and_admin() {
    let claims = JwtClaims {
        sub: "user-1".to_string(),
        iat: 0,
        exp: 10,
        permissions: vec!["files:read".to_string()],
        session_id: "s-1".to_string(),
    };
    let ctx = SecurityContext::with_jwt(&claims);
    assert_eq!(ctx.user_id.as_deref(), Some("user-1"));
    assert!(ctx.has_permission("files:read"));
    assert!(!ctx.has_permission("files:write"));
    match ctx.require_permission("files:write") {
        Err(Error::Auth(m)) => assert_eq!(m, "Permission 'files:write' required"),
        _ => panic!("expected an authentication error"),
    }
    let mut admin = SecurityContext::new();
    assert!(!admin.has_permission("anything"));
    admin.permissions.push("admin".to_string());
    assert!(admin.has_permission("anything"));
    assert!(admin.require_permission("anything").is_ok());
    assert_eq!(admin.request_id.len(), 36);
}
