use adui_tools::commands::baidu_translate::{
    baidu_doc_translate_create_request, baidu_doc_translate_create_result,
    baidu_doc_translate_query_request, baidu_pic_translate_request, baidu_text_translate_request,
    baidu_text_translate_result, doc_create_outcome, doc_create_request_body,
    endpoint_with_token, read_segments, text_or_empty, DocCreatePayload,
    DocQueryPayload, PicTranslatePayload, TextTranslatePayload, BAIDU_DOC_CREATE_URL,
    BAIDU_DOC_QUERY_URL, BAIDU_PICTRANS_URL, BAIDU_TEXTTRANS_URL, JSON_CONTENT_TYPE,
};
use adui_tools::commands::github::{
    activity_error, classify_activity_status, commit_activity_url, generating_heatmap,
    ready_heatmap, ActivityStatus, Week, GENERATING_HINT, GITHUB_ACCEPT, GITHUB_USER_AGENT,
};
use adui_tools::commands::http::{request_timeout_ms, HttpRequest, DEFAULT_TIMEOUT_MS};
use adui_tools::commands::proxy::{client_plan, ClientPlan};
use adui_tools::error::AppError;
use adui_tools::settings::types::{NetworkProxyForm, ProxyMode, ProxyProtocol};

fn json(text: &str) -> serde_json::Value {
    serde_json::from_str(text).unwrap()
}

fn text_payload(term_ids: Option<&str>) -> TextTranslatePayload {
    TextTranslatePayload {
        q: "hello \"world\"".to_string(),
        from: "auto".to_string(),
        to: "zh".to_string(),
        term_ids: term_ids.map(|s| s.to_string()),
    }
}

fn doc_payload() -> DocCreatePayload {
    DocCreatePayload {
        from: "en".to_string(),
        to: "zh".to_string(),
        file: b"hello world~".to_vec(),
        format: "txt".to_string(),
        filename: None,
        trans_image: None,
        output_format: None,
        filename_prefix: None,
    }
}

fn manual(host: Option<&str>, port: Option<u16>) -> NetworkProxyForm {
    NetworkProxyForm {
        mode: ProxyMode::Manual,
        protocol: None,
        host: host.map(|s| s.to_string()),
        port,
        username: None,
        password: None,
        no_proxy: None,
    }
}

#[test]
fn endpoints() {
    assert_eq!(BAIDU_TEXTTRANS_URL, "https://aip.baidubce.com/rpc/2.0/mt/texttrans/v1");
    assert_eq!(
        BAIDU_DOC_CREATE_URL,
        "https://aip.baidubce.com/rpc/2.0/mt/v2/doc-translation/create"
    );
    assert_eq!(
        BAIDU_DOC_QUERY_URL,
        "https://aip.baidubce.com/rpc/2.0/mt/v2/doc-translation/query"
    );
    assert_eq!(BAIDU_PICTRANS_URL, "https://aip.baidubce.com/file/2.0/mt/pictrans/v1");
    assert_eq!(JSON_CONTENT_TYPE, "application/json;charset=utf-8");
}

#[test]
fn token_is_attached_as_it_is() {
    assert_eq!(
        endpoint_with_token("https://example.test/api", "24.a b&c"),
        "https://example.test/api?access_token=24.a b&c"
    );
    assert_eq!(endpoint_with_token("", ""), "?access_token=");
}

#[test]
fn text_request_without_term_ids() {
    let request = baidu_text_translate_request("tok", &text_payload(None));
    assert_eq!(
        request.url,
        "https://aip.baidubce.com/rpc/2.0/mt/texttrans/v1?access_token=tok"
    );
    assert_eq!(request.content_type, "application/json;charset=utf-8");
    assert_eq!(
        request.body,
        json("{\"q\":\"hello \\\"world\\\"\",\"from\":\"auto\",\"to\":\"zh\"}")
    );
    assert_eq!(request.body.as_object().unwrap().len(), 3);
}

#[test]
fn text_request_with_term_ids() {
    let request = baidu_text_translate_request("tok", &text_payload(Some("t1,t2")));
    assert_eq!(
        request.body,
        json("{\"q\":\"hello \\\"world\\\"\",\"from\":\"auto\",\"to\":\"zh\",\"termIds\":\"t1,t2\"}")
    );
}

#[test]
fn text_result_joins_the_paragraphs() {
    let raw = json(
        "{\"result\":{\"from\":\"en\",\"to\":\"zh\",\"trans_result\":[\
         {\"src\":\"a\",\"dst\":\"甲\"},{\"src\":\"b\"},{\"dst\":7},{\"src\":\"c\",\"dst\":\"丙\"},\"x\",{\"dst\":\"\"}]},\"log_id\":1}",
    );
    let result = baidu_text_translate_result(raw.clone());
    assert_eq!(result.from, "en");
    assert_eq!(result.to, "zh");
    assert_eq!(result.dst, "甲\n丙\n");
    assert_eq!(result.raw, raw);
}

#[test]
fn text_result_of_a_single_paragraph() {
    let raw = json("{\"result\":{\"from\":\"en\",\"to\":\"de\",\"trans_result\":[{\"dst\":\"Hallo\"}]}}");
    assert_eq!(baidu_text_translate_result(raw).dst, "Hallo");
}

#[test]
fn text_result_of_an_upstream_error_is_empty_but_keeps_the_answer() {
    let raw = json("{\"error_code\":110,\"error_msg\":\"Access token invalid\"}");
    let result = baidu_text_translate_result(raw.clone());
    assert_eq!(result.from, "");
    assert_eq!(result.to, "");
    assert_eq!(result.dst, "");
    assert_eq!(result.raw, raw);

    let raw = json("{\"result\":{\"from\":1,\"to\":null,\"trans_result\":{\"dst\":\"x\"}}}");
    let result = baidu_text_translate_result(raw);
    assert_eq!((result.from.as_str(), result.to.as_str(), result.dst.as_str()), ("", "", ""));

    let raw = json("{\"result\":{\"trans_result\":[]}}");
    assert_eq!(baidu_text_translate_result(raw).dst, "");
}

#[test]
fn text_or_empty_on_plain_values() {
    assert_eq!(text_or_empty(Some("abc")), "abc");
    assert_eq!(text_or_empty(Some("")), "");
    assert_eq!(text_or_empty(None), "");
}

#[test]
fn pic_request_without_paste() {
    let payload = PicTranslatePayload {
        image: vec![0x89, b'P', b'N', b'G'],
        mime: "image/png".to_string(),
        from: "en".to_string(),
        to: "zh".to_string(),
        paste: None,
    };
    let request = baidu_pic_translate_request("tok", payload);
    assert_eq!(
        request.url,
        "https://aip.baidubce.com/file/2.0/mt/pictrans/v1?access_token=tok"
    );
    assert_eq!(request.file_field, "image");
    assert_eq!(request.file_name, "image");
    assert_eq!(request.file_mime, "image/png");
    assert_eq!(request.file, vec![0x89, b'P', b'N', b'G']);
    assert_eq!(
        request.fields,
        vec![
            ("from".to_string(), "en".to_string()),
            ("to".to_string(), "zh".to_string()),
            ("v".to_string(), "3".to_string()),
        ]
    );
}

#[test]
fn pic_request_with_paste() {
    for (paste, text) in [(0, "0"), (1, "1"), (2, "2"), (-7, "-7"), (i32::MAX, "2147483647"), (i32::MIN, "-2147483648")] {
        let payload = PicTranslatePayload {
            image: Vec::new(),
            mime: "image/jpeg".to_string(),
            from: "auto".to_string(),
            to: "en".to_string(),
            paste: Some(paste),
        };
        let request = baidu_pic_translate_request("t", payload);
        assert_eq!(request.fields.len(), 4);
        assert_eq!(request.fields[2], ("v".to_string(), "3".to_string()));
        assert_eq!(request.fields[3], ("paste".to_string(), text.to_string()));
    }
}

#[test]
fn doc_request_with_required_fields_only() {
    let request = baidu_doc_translate_create_request("tok", &doc_payload());
    assert_eq!(
        request.url,
        "https://aip.baidubce.com/rpc/2.0/mt/v2/doc-translation/create?access_token=tok"
    );
    assert_eq!(request.content_type, "application/json;charset=utf-8");
    assert_eq!(
        request.body,
        json("{\"from\":\"en\",\"to\":\"zh\",\"input\":{\"content\":\"aGVsbG8gd29ybGR+\",\"format\":\"txt\"}}")
    );
    assert!(request.body.get("output").is_none());
}

#[test]
fn doc_request_with_every_option() {
    let mut payload = doc_payload();
    payload.file = vec![0, 1, 2, 253, 254, 255, 7];
    payload.filename = Some("report.pdf".to_string());
    payload.trans_image = Some(1);
    payload.output_format = Some("docx".to_string());
    payload.filename_prefix = Some("zh_".to_string());
    let request = baidu_doc_translate_create_request("tok", &payload);
    assert_eq!(
        request.body,
        json(
            "{\"from\":\"en\",\"to\":\"zh\",\
             \"input\":{\"content\":\"AAEC/f7/Bw==\",\"format\":\"txt\",\"filename\":\"report.pdf\",\"trans_image\":1},\
             \"output\":{\"formats\":[\"docx\"],\"filename_prefix\":\"zh_\"}}"
        )
    );
}

#[test]
fn doc_request_output_appears_with_either_option() {
    let mut payload = doc_payload();
    payload.output_format = Some("pdf".to_string());
    let request = baidu_doc_translate_create_request("tok", &payload);
    assert_eq!(request.body["output"], json("{\"formats\":[\"pdf\"]}"));

    let mut payload = doc_payload();
    payload.filename_prefix = Some("p".to_string());
    payload.trans_image = Some(0);
    let request = baidu_doc_translate_create_request("tok", &payload);
    assert_eq!(request.body["output"], json("{\"filename_prefix\":\"p\"}"));
    assert_eq!(request.body["input"]["trans_image"], json("0"));
    assert!(request.body["input"].get("filename").is_none());
}

#[test]
fn doc_request_of_an_empty_file() {
    let mut payload = doc_payload();
    payload.file = Vec::new();
    let request = baidu_doc_translate_create_request("tok", &payload);
    assert_eq!(request.body["input"]["content"], json("\"\""));
}

#[test]
fn doc_result_carries_the_task_id() {
    let raw = json("{\"result\":{\"id\":\"task-42\"},\"log_id\":9}");
    let result = baidu_doc_translate_create_result(raw.clone()).unwrap();
    assert_eq!(result.id, "task-42");
    assert_eq!(result.raw, raw);
}

#[test]
fn doc_result_without_id_is_a_business_error_quoting_the_answer() {
    for text in [
        "{\"error_code\":216100,\"error_msg\":\"invalid param\"}",
        "{\"result\":{\"id\":\"\"}}",
        "{\"result\":{\"id\":12}}",
        "{\"result\":[]}",
    ] {
        let error = baidu_doc_translate_create_result(json(text)).unwrap_err();
        assert_eq!(
            error,
            AppError::Message(format!("Baidu doc create failed: {}", json(text)))
        );
    }
    let error = baidu_doc_translate_create_result(json("{\"error_code\":1}")).unwrap_err();
    assert_eq!(error.message(), "Baidu doc create failed: {\"error_code\":1}");
}

#[test]
fn doc_query_request_names_the_task() {
    let request =
        baidu_doc_translate_query_request("tok", &DocQueryPayload { id: "task-42".to_string() });
    assert_eq!(
        request.url,
        "https://aip.baidubce.com/rpc/2.0/mt/v2/doc-translation/query?access_token=tok"
    );
    assert_eq!(request.content_type, "application/json;charset=utf-8");
    assert_eq!(request.body, json("{\"id\":\"task-42\"}"));
}

#[test]
fn github_request_shape() {
    assert_eq!(
        commit_activity_url("rust-lang", "rust"),
        "https://api.github.com/repos/rust-lang/rust/stats/commit_activity"
    );
    assert_eq!(commit_activity_url("", ""), "https://api.github.com/repos///stats/commit_activity");
    assert_eq!(GITHUB_USER_AGENT, "ADuiTools");
    assert_eq!(GITHUB_ACCEPT, "application/vnd.github+json");
}

#[test]
fn github_status_meanings() {
    assert_eq!(classify_activity_status(202), ActivityStatus::Generating);
    for status in [200, 201, 203, 204, 299] {
        assert_eq!(classify_activity_status(status), ActivityStatus::Ready);
    }
    for status in [0, 100, 199, 300, 301, 403, 404, 500, u16::MAX] {
        assert_eq!(classify_activity_status(status), ActivityStatus::Failed);
    }
}

#[test]
fn github_generating_answer_is_soft() {
    let heatmap = generating_heatmap("o".to_string(), "r".to_string());
    assert!(heatmap.weeks.is_empty());
    assert_eq!(heatmap.owner, "o");
    assert_eq!(heatmap.repo, "r");
    assert_eq!(heatmap.hint.as_deref(), Some(GENERATING_HINT));
    assert_eq!(
        GENERATING_HINT,
        "GitHub 正在生成统计缓存（202 Accepted），请稍后再打开/刷新此页面。"
    );
}

#[test]
fn github_ready_answer_keeps_the_weeks() {
    let weeks = vec![
        Week { total: 3, week: 1_700_000_000, days: [0, 1, 0, 2, 0, 0, 0] },
        Week { total: 0, week: 1_700_604_800, days: [0; 7] },
    ];
    let heatmap = ready_heatmap(weeks.clone(), "o".to_string(), "r".to_string());
    assert_eq!(heatmap.weeks, weeks);
    assert_eq!(heatmap.owner, "o");
    assert_eq!(heatmap.repo, "r");
    assert_eq!(heatmap.hint, None);
}

#[test]
fn github_error_text() {
    assert_eq!(
        activity_error("404 Not Found", "{\"message\":\"Not Found\"}"),
        "GitHub API error: 404 Not Found {\"message\":\"Not Found\"}"
    );
    assert_eq!(activity_error("500 Internal Server Error", ""), "GitHub API error: 500 Internal Server Error ");
}

#[test]
fn http_timeout_defaults_to_thirty_seconds() {
    let mut request = HttpRequest {
        url: "https://example.test".to_string(),
        method: "GET".to_string(),
        headers: None,
        body: None,
        timeout_ms: None,
    };
    assert_eq!(DEFAULT_TIMEOUT_MS, 30_000);
    assert_eq!(request_timeout_ms(&request), 30_000);
    request.timeout_ms = Some(1_500);
    assert_eq!(request_timeout_ms(&request), 1_500);
    request.timeout_ms = Some(0);
    assert_eq!(request_timeout_ms(&request), 0);
    request.timeout_ms = Some(u64::MAX);
    assert_eq!(request_timeout_ms(&request), u64::MAX);
}

#[test]
fn disabled_proxy_uses_no_proxy_at_all() {
    let mut form = manual(Some("127.0.0.1"), Some(7890));
    form.mode = ProxyMode::Disable;
    form.protocol = Some(ProxyProtocol::Http);
    form.username = Some("u".to_string());
    form.password = Some("p".to_string());
    assert_eq!(client_plan(Some(form)), ClientPlan::Direct);
    let mut form = manual(None, None);
    form.mode = ProxyMode::Disable;
    assert_eq!(client_plan(Some(form)), ClientPlan::Direct);
}

#[test]
fn system_proxy_and_no_form_leave_the_client_to_its_defaults() {
    assert_eq!(client_plan(None), ClientPlan::Default);
    let mut form = manual(Some("127.0.0.1"), Some(7890));
    form.mode = ProxyMode::System;
    form.protocol = Some(ProxyProtocol::Http);
    assert_eq!(client_plan(Some(form)), ClientPlan::Default);
    let mut form = manual(None, None);
    form.mode = ProxyMode::System;
    assert_eq!(client_plan(Some(form)), ClientPlan::Default);
}

#[test]
fn the_three_choices_give_three_plans() {
    let plans: Vec<ClientPlan> = [ProxyMode::Disable, ProxyMode::System, ProxyMode::Manual]
        .into_iter()
        .map(|mode| {
            let mut form = manual(Some("h"), Some(1));
            form.mode = mode;
            client_plan(Some(form))
        })
        .collect();
    assert_eq!(plans[0], ClientPlan::Direct);
    assert_eq!(plans[1], ClientPlan::Default);
    assert_eq!(
        plans[2],
        ClientPlan::Proxied { url: "http://h:1".to_string(), basic_auth: None }
    );
}

#[test]
fn manual_mode_needs_a_host_and_a_port() {
    assert_eq!(client_plan(Some(manual(None, Some(7890)))), ClientPlan::Default);
    assert_eq!(client_plan(Some(manual(Some(""), Some(7890)))), ClientPlan::Default);
    assert_eq!(client_plan(Some(manual(Some("proxy.local"), None))), ClientPlan::Default);
    assert_eq!(client_plan(Some(manual(Some("proxy.local"), Some(0)))), ClientPlan::Default);
}

#[test]
fn manual_mode_builds_the_proxy_address() {
    assert_eq!(
        client_plan(Some(manual(Some("127.0.0.1"), Some(7890)))),
        ClientPlan::Proxied { url: "http://127.0.0.1:7890".to_string(), basic_auth: None }
    );
    for (protocol, text) in [
        (ProxyProtocol::Http, "http://proxy.local:1"),
        (ProxyProtocol::Https, "https://proxy.local:1"),
        (ProxyProtocol::Socks5, "socks5://proxy.local:1"),
    ] {
        let mut form = manual(Some("proxy.local"), Some(1));
        form.protocol = Some(protocol);
        assert_eq!(
            client_plan(Some(form)),
            ClientPlan::Proxied { url: text.to_string(), basic_auth: None }
        );
    }
    assert_eq!(
        client_plan(Some(manual(Some("h"), Some(65535)))),
        ClientPlan::Proxied { url: "http://h:65535".to_string(), basic_auth: None }
    );
    assert_eq!(
        client_plan(Some(manual(Some("h"), Some(8080)))),
        ClientPlan::Proxied { url: "http://h:8080".to_string(), basic_auth: None }
    );
}

#[test]
fn proxy_credentials_need_both_parts_and_a_name() {
    let with = |username: Option<&str>, password: Option<&str>| {
        let mut form = manual(Some("h"), Some(80));
        form.username = username.map(|s| s.to_string());
        form.password = password.map(|s| s.to_string());
        form.no_proxy = Some(vec!["localhost".to_string()]);
        match client_plan(Some(form)) {
            ClientPlan::Proxied { url, basic_auth } => {
                assert_eq!(url, "http://h:80");
                basic_auth
            }
            other => panic!("expected a proxy, got {:?}", other),
        }
    };
    assert_eq!(with(Some("u"), Some("p")), Some(("u".to_string(), "p".to_string())));
    assert_eq!(with(Some("u"), Some("")), Some(("u".to_string(), "".to_string())));
    assert_eq!(with(Some(""), Some("p")), None);
    assert_eq!(with(Some("u"), None), None);
    assert_eq!(with(None, Some("p")), None);
    assert_eq!(with(None, None), None);
}

#[test]
fn segments_of_a_result_list() {
    let items = vec![
        json("{\"dst\":\"one\",\"src\":\"1\"}"),
        json("{\"src\":\"no dst\"}"),
        json("{\"dst\":null}"),
        json("[\"dst\"]"),
        json("{\"dst\":\"\"}"),
        json("{\"dst\":\"two\"}"),
    ];
    assert_eq!(
        read_segments(&items),
        vec!["one".to_string(), String::new(), "two".to_string()]
    );
    assert_eq!(read_segments(&Vec::new()), Vec::<String>::new());
}

#[test]
fn document_outcome_on_a_given_id() {
    let raw = json("{\"result\":{\"id\":\"ignored here\"}}");
    let result = doc_create_outcome("task-7".to_string(), raw.clone()).unwrap();
    assert_eq!(result.id, "task-7");
    assert_eq!(result.raw, raw);
    let raw = json("{\"error_code\":3}");
    assert_eq!(
        doc_create_outcome(String::new(), raw).unwrap_err(),
        AppError::Message("Baidu doc create failed: {\"error_code\":3}".to_string())
    );
}

#[test]
fn document_body_of_a_given_content() {
    let mut payload = doc_payload();
    payload.filename = Some("a.txt".to_string());
    assert_eq!(
        doc_create_request_body("Q09OVEVOVA==", &payload),
        json(
            "{\"from\":\"en\",\"to\":\"zh\",\
             \"input\":{\"content\":\"Q09OVEVOVA==\",\"format\":\"txt\",\"filename\":\"a.txt\"}}"
        )
    );
}
