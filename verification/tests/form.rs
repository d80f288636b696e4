use beverly::form::{Form, FormEncoding, FormMethod, FormRequest};

#[test]
fn get_form_builds_query_string() {
    let request = Form::get("/api/search".to_string())
        .field("q".to_string(), "hello world".to_string())
        .field("page".to_string(), "2".to_string())
        .build_request();

    assert!(request.method == FormMethod::Get);
    assert_eq!(request.request_url(), "/api/search?q=hello world&page=2");
}

#[test]
fn post_form_uses_json_when_configured() {
    let request = Form::post("/api/items".to_string())
        .encoding(FormEncoding::Json)
        .field("title".to_string(), "Demo".to_string())
        .field("published".to_string(), "true".to_string())
        .build_request();

    assert!(request.method == FormMethod::Post);
    assert!(request.encoding == FormEncoding::Json);
    assert_eq!(request.fields.len(), 2);
}

#[test]
fn post_request_url_is_the_bare_action() {
    let request = FormRequest::new()
        .action("/api/items".to_string())
        .method(FormMethod::Post)
        .field("a".to_string(), "1".to_string());
    assert_eq!(request.request_url(), "/api/items");
}

#[test]
fn get_request_without_fields_has_no_query() {
    let request = Form::get("/api/search".to_string()).build_request();
    assert_eq!(request.request_url(), "/api/search");
}

#[test]
fn fields_are_appended_in_order() {
    let form = Form::new()
        .field("a".to_string(), "1".to_string())
        .fields(vec![("b".to_string(), "2".to_string()), ("c".to_string(), "3".to_string())]);
    let keys: Vec<&str> = form.fields.iter().map(|(k, _)| k.as_str()).collect();
    assert_eq!(keys, vec!["a", "b", "c"]);
    assert_eq!(form.submit_label, "Submit");
    assert!(form.show_submit_button);
    assert!(!form.disabled);
    let url = form.build_request().request_url();
    assert_eq!(url, "?a=1&b=2&c=3");
}
