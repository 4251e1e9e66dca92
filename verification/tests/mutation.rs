use argocd_sync::app::{Application, Helm, Parameter, Source, Spec};
use serde_json::Value;

fn members(key: &str, value: Value) -> serde_json::Map<String, Value> {
    let mut members = serde_json::Map::new();
    members.insert(key.to_string(), value);
    members
}

fn object(key: &str, value: &str) -> Value {
    Value::Object(members(key, Value::String(value.to_string())))
}

fn parameter(name: &str, value: &str) -> Parameter {
    Parameter { name: name.to_string(), value: value.to_string() }
}

fn chart(repo_url: &str, helm: Option<Helm>) -> Source {
    Source {
        repo_url: repo_url.to_string(),
        path: Some("path/to/chart".to_string()),
        target_revision: Some("main".to_string()),
        helm,
        reference: None,
        extra: serde_json::Map::new(),
    }
}

fn helm(parameters: Option<Vec<Parameter>>) -> Helm {
    Helm {
        value_files: Some(vec!["values.yaml".to_string()]),
        parameters,
        extra: serde_json::Map::new(),
    }
}

fn document(sources: Vec<Source>, status: Option<Value>) -> Application {
    Application {
        metadata: object("name", "test-app"),
        spec: Spec {
            sources,
            destination: object("namespace", "default"),
            project: "default".to_string(),
            sync_policy: object("policy", "auto"),
        },
        status,
    }
}

fn pairs(helm: &Option<Helm>) -> Vec<(String, String)> {
    helm.as_ref()
        .unwrap()
        .parameters
        .as_ref()
        .unwrap()
        .iter()
        .map(|p| (p.name.clone(), p.value.clone()))
        .collect()
}

fn pair(name: &str, value: &str) -> (String, String) {
    (name.to_string(), value.to_string())
}

#[test]
fn test_add_new_image_tag() {
    let mut app = document(
        vec![chart(
            "https://test.com/repo",
            Some(helm(Some(vec![parameter("existing.param", "value")]))),
        )],
        None,
    );

    app.add_image_tag("new-tag".to_string());

    if let Some(helm) = &app.spec.sources[0].helm {
        let parameters = helm.parameters.as_ref().unwrap();
        assert!(parameters.iter().any(|p| p.name == "image.tag" && p.value == "new-tag"));
    } else {
        panic!("Helm configuration not found");
    }
}

#[test]
fn test_update_existing_image_tag() {
    let mut app = document(
        vec![chart(
            "https://example.com/repo",
            Some(helm(Some(vec![
                parameter("existing.param", "value"),
                parameter("image.tag", "old-tag"),
            ]))),
        )],
        None,
    );

    app.add_image_tag("new-tag".to_string());

    if let Some(helm) = &app.spec.sources[0].helm {
        let parameters = helm.parameters.as_ref().unwrap();
        assert!(parameters.iter().any(|p| p.name == "image.tag" && p.value == "new-tag"));
        assert!(parameters.iter().any(|p| p.name == "existing.param" && p.value == "value"));
    } else {
        panic!("Helm configuration not found");
    }
}

#[test]
fn test_add_image_tag_when_parameters_none() {
    let mut app = document(vec![chart("https://example.com/repo", Some(helm(None)))], None);

    app.add_image_tag("new-tag".to_string());

    if let Some(helm) = &app.spec.sources[0].helm {
        let parameters = helm.parameters.as_ref().unwrap();
        assert!(parameters.iter().any(|p| p.name == "image.tag" && p.value == "new-tag"));
    } else {
        panic!("Helm configuration not found");
    }
}

#[test]
fn test_other_fields_not_modified() {
    let mut app = document(
        vec![chart("https://example.com/repo", Some(helm(None)))],
        Some(object("status", "healthy")),
    );

    app.add_image_tag("new-tag".to_string());

    assert_eq!(app.metadata["name"], "test-app");
    assert_eq!(app.status.as_ref().unwrap()["status"], "healthy");
}

#[test]
fn insert_appends_after_existing_parameters() {
    let mut app = document(
        vec![chart(
            "https://example.com/repo",
            Some(helm(Some(vec![parameter("existing.param", "value")]))),
        )],
        None,
    );

    app.add_image_tag("new-tag".to_string());

    assert_eq!(
        pairs(&app.spec.sources[0].helm),
        vec![pair("existing.param", "value"), pair("image.tag", "new-tag")]
    );
}

#[test]
fn update_overwrites_in_place() {
    let mut app = document(
        vec![chart(
            "https://example.com/repo",
            Some(helm(Some(vec![
                parameter("existing.param", "value"),
                parameter("image.tag", "old-tag"),
            ]))),
        )],
        None,
    );

    app.add_image_tag("new-tag".to_string());

    assert_eq!(
        pairs(&app.spec.sources[0].helm),
        vec![pair("existing.param", "value"), pair("image.tag", "new-tag")]
    );
}

#[test]
fn update_keeps_position_of_image_tag() {
    let mut app = document(
        vec![chart(
            "https://example.com/repo",
            Some(helm(Some(vec![
                parameter("image.tag", "old-tag"),
                parameter("replicas", "3"),
            ]))),
        )],
        None,
    );

    app.add_image_tag("new-tag".to_string());

    assert_eq!(
        pairs(&app.spec.sources[0].helm),
        vec![pair("image.tag", "new-tag"), pair("replicas", "3")]
    );
}

#[test]
fn missing_parameter_sequence_becomes_one_parameter() {
    let mut app = document(vec![chart("https://example.com/repo", Some(helm(None)))], None);

    app.add_image_tag("new-tag".to_string());

    assert_eq!(pairs(&app.spec.sources[0].helm), vec![pair("image.tag", "new-tag")]);
}

#[test]
fn empty_parameter_sequence_gets_the_parameter() {
    let mut app = document(vec![chart("https://example.com/repo", Some(helm(Some(vec![]))))], None);

    app.add_image_tag("v2".to_string());

    assert_eq!(pairs(&app.spec.sources[0].helm), vec![pair("image.tag", "v2")]);
}

#[test]
fn only_first_of_duplicate_image_tags_is_updated() {
    let mut app = document(
        vec![chart(
            "https://example.com/repo",
            Some(helm(Some(vec![
                parameter("image.tag", "first"),
                parameter("other", "x"),
                parameter("image.tag", "second"),
            ]))),
        )],
        None,
    );

    app.add_image_tag("new-tag".to_string());

    assert_eq!(
        pairs(&app.spec.sources[0].helm),
        vec![pair("image.tag", "new-tag"), pair("other", "x"), pair("image.tag", "second")]
    );
}

#[test]
fn name_must_match_exactly() {
    let mut app = document(
        vec![chart(
            "https://example.com/repo",
            Some(helm(Some(vec![
                parameter("image.tags", "a"),
                parameter("Image.tag", "b"),
                parameter("image.ta", "c"),
            ]))),
        )],
        None,
    );

    app.add_image_tag("new-tag".to_string());

    assert_eq!(
        pairs(&app.spec.sources[0].helm),
        vec![
            pair("image.tags", "a"),
            pair("Image.tag", "b"),
            pair("image.ta", "c"),
            pair("image.tag", "new-tag"),
        ]
    );
}

#[test]
fn three_sources_each_follow_their_own_branch() {
    let mut app = document(
        vec![
            chart("https://example.com/plain", None),
            chart(
                "https://example.com/tagged",
                Some(helm(Some(vec![parameter("image.tag", "old-tag")]))),
            ),
            chart("https://example.com/bare", Some(helm(None))),
        ],
        None,
    );

    app.add_image_tag("new-tag".to_string());

    assert_eq!(app.spec.sources.len(), 3);
    assert!(app.spec.sources[0].helm.is_none());
    assert_eq!(pairs(&app.spec.sources[1].helm), vec![pair("image.tag", "new-tag")]);
    assert_eq!(pairs(&app.spec.sources[2].helm), vec![pair("image.tag", "new-tag")]);
    assert_eq!(app.spec.sources[0].repo_url, "https://example.com/plain");
    assert_eq!(app.spec.sources[1].repo_url, "https://example.com/tagged");
    assert_eq!(app.spec.sources[2].repo_url, "https://example.com/bare");
}

#[test]
fn applying_twice_equals_applying_once() {
    let build = || {
        document(
            vec![
                chart("https://example.com/plain", None),
                chart(
                    "https://example.com/a",
                    Some(helm(Some(vec![parameter("existing.param", "value")]))),
                ),
                chart(
                    "https://example.com/b",
                    Some(helm(Some(vec![
                        parameter("image.tag", "old-tag"),
                        parameter("image.tag", "stale"),
                    ]))),
                ),
                chart("https://example.com/c", Some(helm(None))),
            ],
            Some(object("status", "healthy")),
        )
    };
    let mut once = build();
    once.add_image_tag("new-tag".to_string());
    let mut twice = build();
    twice.add_image_tag("new-tag".to_string());
    twice.add_image_tag("new-tag".to_string());

    assert_eq!(format!("{:?}", once), format!("{:?}", twice));
    assert_eq!(
        pairs(&twice.spec.sources[1].helm),
        vec![pair("existing.param", "value"), pair("image.tag", "new-tag")]
    );
    assert_eq!(
        pairs(&twice.spec.sources[2].helm),
        vec![pair("image.tag", "new-tag"), pair("image.tag", "stale")]
    );
}

#[test]
fn document_without_helm_is_unchanged() {
    let build = || {
        document(
            vec![chart("https://example.com/one", None), chart("https://example.com/two", None)],
            Some(object("status", "healthy")),
        )
    };
    let mut app = build();

    app.add_image_tag("new-tag".to_string());

    assert_eq!(format!("{:?}", app), format!("{:?}", build()));
}

#[test]
fn document_without_sources_is_unchanged() {
    let mut app = document(vec![], None);

    app.add_image_tag("new-tag".to_string());

    assert!(app.spec.sources.is_empty());
    assert_eq!(format!("{:?}", app), format!("{:?}", document(vec![], None)));
}

#[test]
fn fields_off_the_mutation_path_are_kept() {
    let mut nested = serde_json::Map::new();
    nested.insert("unknown".to_string(), Value::Array(vec![Value::Bool(true), Value::Null]));
    nested.insert("name".to_string(), Value::String("test-app".to_string()));
    let mut app = Application {
        metadata: Value::Object(nested.clone()),
        spec: Spec {
            sources: vec![Source {
                repo_url: "https://example.com/repo".to_string(),
                path: None,
                target_revision: Some("v1".to_string()),
                helm: Some(Helm {
                    value_files: Some(vec!["a.yaml".to_string(), "b.yaml".to_string()]),
                    parameters: Some(vec![parameter("existing.param", "value")]),
                    extra: members("skipCrds", Value::Bool(true)),
                }),
                reference: Some("values".to_string()),
                extra: members("chart", Value::String("guestbook".to_string())),
            }],
            destination: object("server", "https://kubernetes.default.svc"),
            project: "platform".to_string(),
            sync_policy: Value::Null,
        },
        status: Some(object("health", "Degraded")),
    };

    app.add_image_tag("new-tag".to_string());

    assert_eq!(app.metadata, Value::Object(nested));
    assert_eq!(app.spec.destination, object("server", "https://kubernetes.default.svc"));
    assert_eq!(app.spec.project, "platform");
    assert_eq!(app.spec.sync_policy, Value::Null);
    assert_eq!(app.status, Some(object("health", "Degraded")));
    let source = &app.spec.sources[0];
    assert_eq!(source.repo_url, "https://example.com/repo");
    assert_eq!(source.path, None);
    assert_eq!(source.target_revision, Some("v1".to_string()));
    assert_eq!(source.reference, Some("values".to_string()));
    assert_eq!(source.extra, members("chart", Value::String("guestbook".to_string())));
    let helm = source.helm.as_ref().unwrap();
    assert_eq!(helm.value_files, Some(vec!["a.yaml".to_string(), "b.yaml".to_string()]));
    assert_eq!(helm.extra, members("skipCrds", Value::Bool(true)));
    assert_eq!(pairs(&source.helm), vec![pair("existing.param", "value"), pair("image.tag", "new-tag")]);
}

#[test]
fn missing_value_files_stay_missing() {
    let mut app = document(
        vec![chart(
            "https://example.com/repo",
            Some(Helm { value_files: None, parameters: None, extra: serde_json::Map::new() }),
        )],
        None,
    );

    app.add_image_tag("new-tag".to_string());

    assert_eq!(app.spec.sources[0].helm.as_ref().unwrap().value_files, None);
    assert_eq!(pairs(&app.spec.sources[0].helm), vec![pair("image.tag", "new-tag")]);
}

#[test]
fn empty_tag_is_a_tag() {
    let mut app = document(
        vec![chart(
            "https://example.com/repo",
            Some(helm(Some(vec![parameter("image.tag", "old-tag")]))),
        )],
        None,
    );

    app.add_image_tag(String::new());

    assert_eq!(pairs(&app.spec.sources[0].helm), vec![pair("image.tag", "")]);
}

#[test]
fn unique_names_stay_unique() {
    let mut app = document(
        vec![
            chart(
                "https://example.com/a",
                Some(helm(Some(vec![
                    parameter("replicas", "2"),
                    parameter("image.tag", "old-tag"),
                    parameter("image.repository", "nginx"),
                ]))),
            ),
            chart(
                "https://example.com/b",
                Some(helm(Some(vec![parameter("replicas", "2"), parameter("image.repository", "nginx")]))),
            ),
        ],
        None,
    );

    app.add_image_tag("new-tag".to_string());

    for source in &app.spec.sources {
        let mut names: Vec<String> = pairs(&source.helm).into_iter().map(|p| p.0).collect();
        let total: usize = names.len();
        names.sort();
        names.dedup();
        assert_eq!(names.len(), total);
        assert_eq!(total, 3);
    }
}
