use text_upload::client::{resolve_client, try_resolve_client, ClientConfig};
use text_upload::handler::{
    hello, respond, try_hello, CustomEvent, CustomOutput, Environment, HandlerError, UploadPlan,
    BUCKET_NAME_KEY, LOCAL_KEY, MOCK_KEY, MSG_SUCCEEDED,
};
use text_upload::hoge::hoge_function;
use text_upload::message::{MSG_EMPTY_TEXT_BODY, MSG_TEXT_BODY_TOO_LONG};
use text_upload::upload::UploadRequest;
use text_upload::validate::ValidationError;

fn setup() -> Environment {
    Environment {
        mock_flag: Some("1".to_string()),
        bucket_name: Ok("test-bucket".to_string()),
        local_flag: None,
    }
}

fn event(text: &str) -> CustomEvent {
    CustomEvent { text_body: Some(text.to_string()) }
}

#[test]
fn can_get_local_s3_client() {
    let local = Some("local".to_string());
    assert_eq!(resolve_client(&None, &local), ClientConfig::Local);
    assert_eq!(try_resolve_client(&None, &local), Some(ClientConfig::Local));
}

#[test]
fn can_get_cloud_s3_client() {
    let local = Some("".to_string());
    assert_eq!(resolve_client(&None, &local), ClientConfig::Cloud);
    assert_eq!(try_resolve_client(&None, &local), Some(ClientConfig::Cloud));
}

#[test]
fn can_hello_handler_handle_valid_request() {
    let env = setup();
    let event = CustomEvent { text_body: Some("Firstname".to_string()) };
    let expected = CustomOutput { message: "Succeeded.".to_string() };
    let plan = hello(event, &env).expect("expected Ok(_) value");
    assert_eq!(plan.client, ClientConfig::Mock);
    assert_eq!(plan.request.body, b"Firstname".to_vec());
    assert_eq!(respond(Ok(())).expect("expected Ok(_) value"), expected)
}

#[test]
fn can_hello_handler_handle_empty_text_body() {
    let env = setup();
    let event = CustomEvent { text_body: None };
    let result = hello(event, &env);
    assert!(result.is_err());
    if let Err(error) = result {
        assert_eq!(error.message(), format!("[400] {}", MSG_EMPTY_TEXT_BODY))
    } else {
        // result must be Err
        panic!()
    }
}

#[test]
fn can_hello_handler_handle_text_body_too_long() {
    let env = setup();
    let event = CustomEvent {
        text_body: Some("12345678901234567890123456789012345678901234567890123456789012345678901234567890123456789012345678901".to_owned())
    };
    let result = hello(event, &env);
    assert!(result.is_err());
    if let Err(error) = result {
        assert_eq!(error.message(), format!("[400] {}", MSG_TEXT_BODY_TOO_LONG))
    } else {
        // result must be Err
        panic!()
    }
}

#[test]
fn can_hoge_function_return_correct_string() {
    let result = hoge_function();
    let expected = String::from("hogehoge!");
    assert_eq!(result, expected);
}

#[test]
fn absent_body_message_is_exact() {
    let err = hello(CustomEvent { text_body: None }, &setup()).unwrap_err();
    assert_eq!(err, HandlerError::Validation(ValidationError::EmptyBody));
    assert_eq!(err.message(), "[400] Empty text body.");
}

#[test]
fn long_body_message_is_exact() {
    let text = "x".repeat(105);
    let err = hello(event(&text), &setup()).unwrap_err();
    assert_eq!(err, HandlerError::Validation(ValidationError::TooLong));
    assert_eq!(err.message(), "[400] Text body is too long (max: 100)");
}

#[test]
fn body_of_exactly_one_hundred_bytes_is_planned() {
    let text = "a".repeat(100);
    let plan = hello(event(&text), &setup()).unwrap();
    assert_eq!(
        plan,
        UploadPlan {
            client: ClientConfig::Mock,
            request: UploadRequest {
                bucket: "test-bucket".to_string(),
                key: "test.txt".to_string(),
                body: text.clone().into_bytes(),
                acl: "public-read".to_string(),
            },
        }
    );
    assert_eq!(respond(Ok(())).unwrap().message, "Succeeded.");
    assert_eq!(MSG_SUCCEEDED, "Succeeded.");
}

#[test]
fn body_of_one_hundred_and_one_bytes_is_refused() {
    let text = "a".repeat(101);
    let err = hello(event(&text), &setup()).unwrap_err();
    assert_eq!(err, HandlerError::Validation(ValidationError::TooLong));
}

#[test]
fn empty_string_body_is_planned() {
    let plan = hello(event(""), &setup()).unwrap();
    assert_eq!(plan.request.body, Vec::<u8>::new());
    assert_eq!(plan.request.key, "test.txt");
}

#[test]
fn refusal_comes_before_configuration() {
    let env = Environment {
        mock_flag: None,
        bucket_name: Err("environment variable not found".to_string()),
        local_flag: None,
    };
    let err = try_hello(CustomEvent { text_body: None }, &env).unwrap().unwrap_err();
    assert_eq!(err.message(), "[400] Empty text body.");
    let long = "b".repeat(200);
    let err = try_hello(event(&long), &env).unwrap().unwrap_err();
    assert_eq!(err.message(), "[400] Text body is too long (max: 100)");
    let err = hello(CustomEvent { text_body: None }, &env).unwrap_err();
    assert_eq!(err, HandlerError::Validation(ValidationError::EmptyBody));
}

#[test]
fn accepted_body_without_any_flag_has_no_plan() {
    let env = Environment {
        mock_flag: None,
        bucket_name: Ok("test-bucket".to_string()),
        local_flag: None,
    };
    assert_eq!(try_hello(event("Firstname"), &env), None);
}

#[test]
fn missing_bucket_is_reported_with_its_own_text() {
    let env = Environment {
        mock_flag: None,
        bucket_name: Err("environment variable not found".to_string()),
        local_flag: Some("local".to_string()),
    };
    let err = hello(event("Firstname"), &env).unwrap_err();
    assert_eq!(err, HandlerError::Configuration("environment variable not found".to_string()));
    assert_eq!(err.message(), "environment variable not found");
    assert_eq!(try_hello(event("Firstname"), &env), Some(Err(err)));
}

#[test]
fn upload_failure_is_passed_on_unchanged() {
    let err = respond(Err("connection reset".to_string())).unwrap_err();
    assert_eq!(err, HandlerError::Transport("connection reset".to_string()));
    assert_eq!(err.message(), "connection reset");
}

#[test]
fn plan_follows_the_flags() {
    let local = Environment {
        mock_flag: None,
        bucket_name: Ok("notes".to_string()),
        local_flag: Some("1".to_string()),
    };
    let plan = hello(event("hi"), &local).unwrap();
    assert_eq!(plan.client, ClientConfig::Local);
    assert_eq!(plan.request.bucket, "notes");
    let cloud = Environment {
        mock_flag: None,
        bucket_name: Ok("notes".to_string()),
        local_flag: Some(String::new()),
    };
    let plan = try_hello(event("hi"), &cloud).unwrap().unwrap();
    assert_eq!(plan.client, ClientConfig::Cloud);
    assert_eq!(plan.request.body, vec![104u8, 105u8]);
}

#[test]
fn setting_names_are_fixed() {
    assert_eq!(MOCK_KEY, "AWS_MOCK_FLAG");
    assert_eq!(BUCKET_NAME_KEY, "BUCKET_NAME");
    assert_eq!(LOCAL_KEY, "LOCAL_FLAG");
}
