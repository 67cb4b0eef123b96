use hawkeye::templates::{
    configmap_name, deployment_name, service_name, sys_api_tags_concat, K8S_LABEL_API_TAG_PREFIX,
};
use std::collections::HashMap;

fn pairs(items: &[(&str, &str)]) -> Vec<(String, String)> {
    items.iter().map(|(k, v)| (k.to_string(), v.to_string())).collect()
}

fn as_map(v: Vec<(String, String)>) -> HashMap<String, String> {
    let n = v.len();
    let m: HashMap<String, String> = v.into_iter().collect();
    assert_eq!(m.len(), n, "keys must be unique");
    m
}

#[test]
fn configmap_name_generates_correct_name() {
    assert_eq!(configmap_name("jupiter"), "hawkeye-config-jupiter".to_string());
}

#[test]
fn deployment_name_generates_correct_name() {
    assert_eq!(deployment_name("saturn"), "hawkeye-deploy-saturn".to_string());
}

#[test]
fn service_name_generates_correct_name() {
    assert_eq!(service_name("mars"), "hawkeye-vid-svc-mars".to_string());
}

#[test]
fn sys_api_tags_concats_valid_sys_tags_and_valid_custom_tags() {
    let system_tags = pairs(&[("very", "important")]);
    let api_tags = Some(pairs(&[
        ("never gonna give", "you up"),
        ("never gonna let", "you dowwnnn"),
    ]));
    let concat = sys_api_tags_concat(&system_tags, api_tags.as_ref());
    assert_eq!(
        as_map(concat),
        HashMap::from([
            ("very".to_string(), "important".to_string()),
            (
                format!("{}never gonna give", K8S_LABEL_API_TAG_PREFIX).to_string(),
                "you up".to_string()
            ),
            (
                format!("{}never gonna let", K8S_LABEL_API_TAG_PREFIX).to_string(),
                "you dowwnnn".to_string()
            ),
        ])
    );
}

#[test]
fn sys_api_tags_concats_sys_empty_tags_and_valid_custom_tags() {
    let system_tags = Vec::new();
    let api_tags = Some(pairs(&[
        ("never gonna give", "you up"),
        ("never gonna let", "you dowwnnn"),
    ]));
    let concat = sys_api_tags_concat(&system_tags, api_tags.as_ref());
    assert_eq!(
        as_map(concat),
        HashMap::from([
            (
                format!("{}never gonna give", K8S_LABEL_API_TAG_PREFIX).to_string(),
                "you up".to_string()
            ),
            (
                format!("{}never gonna let", K8S_LABEL_API_TAG_PREFIX).to_string(),
                "you dowwnnn".to_string()
            ),
        ])
    );
}

#[test]
fn sys_api_tags_concats_sys_valid_tags_and_empty_custom_tags() {
    let system_tags = pairs(&[("very", "important")]);
    let api_tags = Some(Vec::new());
    let concat = sys_api_tags_concat(&system_tags, api_tags.as_ref());
    assert_eq!(
        as_map(concat),
        HashMap::from([("very".to_string(), "important".to_string()),])
    );
}

#[test]
fn sys_api_tags_concats_sys_empty_tags_and_empty_custom_tags() {
    let system_tags = Vec::new();
    let api_tags = Some(Vec::new());
    let concat = sys_api_tags_concat(&system_tags, api_tags.as_ref());
    assert_eq!(as_map(concat), HashMap::new());
}

#[test]
fn sys_api_tags_keep_app_key_and_let_user_tags_override() {
    let system_tags = pairs(&[("app", "hawkeye"), ("watcher_id", "abc123")]);
    let api_tags = Some(pairs(&[("app", "custom"), ("foo", "bar")]));
    let concat = sys_api_tags_concat(&system_tags, api_tags.as_ref());
    assert_eq!(
        as_map(concat),
        HashMap::from([
            ("app".to_string(), "custom".to_string()),
            ("watcher_id".to_string(), "abc123".to_string()),
            ("hawkeye.api.tags/foo".to_string(), "bar".to_string()),
        ])
    );
}

#[test]
fn sys_api_tags_without_custom_tags_are_system_tags() {
    let system_tags = pairs(&[("a", "1"), ("a", "2")]);
    let concat = sys_api_tags_concat(&system_tags, None);
    assert_eq!(as_map(concat), HashMap::from([("a".to_string(), "2".to_string())]));
}
