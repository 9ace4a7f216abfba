use cromwell::image::{
    fs_layers_of, layers_in_manifest, token_in_answer, token_of, AnswerError, Image, LayerError,
};
use cromwell::json::{get_field, into_field, parse_json, JsonValue};

fn object(members: Vec<(&str, JsonValue)>) -> JsonValue {
    JsonValue::Object(members.into_iter().map(|(k, v)| (k.to_string(), v)).collect())
}

#[test]
fn test_init_image() {
    let image = Image::new("library/alpine");
    assert_eq!(image.name, "library/alpine".to_string());
    assert_eq!(image.tag, "latest".to_string());
}

#[test]
fn test_init_image_spec_tag() {
    let image = Image::new("library/alpine:3.8");
    assert_eq!(image.name, "library/alpine".to_string());
    assert_eq!(image.tag, "3.8".to_string());
}

#[test]
fn image_with_two_colons_takes_the_middle_part_as_tag() {
    let image = Image::new("a:b:c");
    assert_eq!(image.name, "a");
    assert_eq!(image.tag, "b");
    assert!(image.fs_layers.is_empty());
}

#[test]
fn image_with_trailing_colon_has_empty_tag() {
    let image = Image::new("alpine:");
    assert_eq!(image.name, "alpine");
    assert_eq!(image.tag, "");
}

#[test]
fn image_from_empty_text() {
    let image = Image::new("");
    assert_eq!(image.name, "");
    assert_eq!(image.tag, "latest");
}

#[test]
fn registry_urls() {
    let image = Image::new("library/alpine:3.8");
    assert_eq!(
        image.auth_url(),
        "https://auth.docker.io/token?service=registry.docker.io&scope=repository:library/alpine:pull"
    );
    assert_eq!(
        image.manifests_url(),
        "https://registry.hub.docker.com/v2/library/alpine/manifests/3.8"
    );
    assert_eq!(
        image.blob_url("sha256:abc"),
        "https://registry.hub.docker.com/v2/library/alpine/blobs/sha256:abc"
    );
}

#[test]
fn add_layer_records_the_layer_file() {
    let mut image = Image::new("library/alpine");
    let layer = object(vec![("blobSum", JsonValue::String("sha256:0123abcd".to_string()))]);
    let download = image.add_layer(&layer).ok().unwrap();
    assert_eq!(download.file, "/tmp/0123abcd.tar.gz");
    assert_eq!(
        download.url,
        "https://registry.hub.docker.com/v2/library/alpine/blobs/sha256:0123abcd"
    );
    assert_eq!(image.fs_layers, vec!["/tmp/0123abcd.tar.gz".to_string()]);

    let second = object(vec![("blobSum", JsonValue::String("sha256:ff".to_string()))]);
    image.add_layer(&second).ok().unwrap();
    assert_eq!(
        image.fs_layers,
        vec!["/tmp/0123abcd.tar.gz".to_string(), "/tmp/ff.tar.gz".to_string()]
    );
}

#[test]
fn add_layer_replaces_every_digest_prefix() {
    let mut image = Image::new("x");
    let layer = object(vec![("blobSum", JsonValue::String("sha256:ab-sha256:cd".to_string()))]);
    let download = image.add_layer(&layer).ok().unwrap();
    assert_eq!(download.file, "/tmp/ab-cd.tar.gz");
}

#[test]
fn add_layer_without_blob_sum_is_refused() {
    let mut image = Image::new("x");
    let no_member = object(vec![("other", JsonValue::String("sha256:aa".to_string()))]);
    assert!(matches!(image.add_layer(&no_member), Err(LayerError::BlobSumNotFound)));
    let not_text = object(vec![("blobSum", JsonValue::Number("3".to_string()))]);
    assert!(matches!(image.add_layer(&not_text), Err(LayerError::BlobSumNotFound)));
    assert!(matches!(image.add_layer(&JsonValue::Null), Err(LayerError::BlobSumNotFound)));
    assert!(image.fs_layers.is_empty());
}

#[test]
fn token_is_read_from_the_token_member() {
    let body = object(vec![
        ("expires_in", JsonValue::Number("300".to_string())),
        ("token", JsonValue::String("secret".to_string())),
    ]);
    assert_eq!(token_of(&body), Some("secret".to_string()));
    let wrong = object(vec![("token", JsonValue::Bool(true))]);
    assert_eq!(token_of(&wrong), None);
    assert_eq!(token_of(&JsonValue::Array(vec![])), None);
}

#[test]
fn layers_are_read_from_the_fs_layers_member() {
    let layers = vec![object(vec![("blobSum", JsonValue::String("sha256:1".to_string()))])];
    let body = object(vec![("fsLayers", JsonValue::Array(layers))]);
    assert_eq!(fs_layers_of(&body).map(|l| l.len()), Some(1));
    let wrong = object(vec![("fsLayers", JsonValue::Null)]);
    assert!(fs_layers_of(&wrong).is_none());
}

#[test]
fn field_lookup_takes_the_first_member_of_that_name() {
    let body = object(vec![
        ("a", JsonValue::Bool(true)),
        ("b", JsonValue::Bool(false)),
    ]);
    assert!(matches!(get_field(&body, "b"), Some(JsonValue::Bool(false))));
    assert!(get_field(&body, "c").is_none());
    assert!(get_field(&JsonValue::Bool(true), "a").is_none());
}

#[test]
fn token_in_answer_reads_the_text() {
    assert_eq!(token_in_answer(r#"{"token": "abc", "expires_in": 300}"#), Ok("abc".to_string()));
    assert_eq!(token_in_answer(r#"{"token": 5}"#), Err(AnswerError::NoToken));
    assert_eq!(token_in_answer(r#"[1, 2]"#), Err(AnswerError::NoToken));
    assert_eq!(token_in_answer("not json"), Err(AnswerError::NotJson));
}

#[test]
fn layers_in_manifest_reads_the_text() {
    let layers = layers_in_manifest(
        r#"{"name": "x", "fsLayers": [{"blobSum": "sha256:aa"}, {"blobSum": "sha256:bb"}]}"#,
    )
    .ok()
    .unwrap();
    assert_eq!(layers.len(), 2);
    assert!(matches!(get_field(&layers[1], "blobSum"), Some(JsonValue::String(s)) if s == "sha256:bb"));
    assert!(matches!(layers_in_manifest(r#"{"fsLayers": {}}"#), Err(AnswerError::NoLayers)));
    assert!(matches!(layers_in_manifest("{"), Err(AnswerError::NotJson)));
}

#[test]
fn record_layers_keeps_manifest_order() {
    let mut image = Image::new("library/alpine");
    let layers = vec![
        object(vec![("blobSum", JsonValue::String("sha256:11".to_string()))]),
        object(vec![("blobSum", JsonValue::String("sha256:22".to_string()))]),
    ];
    let plan = image.record_layers(&layers);
    assert!(plan.error.is_none());
    assert_eq!(plan.downloads.len(), 2);
    assert_eq!(plan.downloads[1].file, "/tmp/22.tar.gz");
    assert_eq!(
        image.fs_layers,
        vec!["/tmp/11.tar.gz".to_string(), "/tmp/22.tar.gz".to_string()]
    );
}

#[test]
fn record_layers_stops_at_a_layer_without_blob_sum() {
    let mut image = Image::new("x");
    let layers = vec![
        object(vec![("blobSum", JsonValue::String("sha256:11".to_string()))]),
        object(vec![("other", JsonValue::Null)]),
        object(vec![("blobSum", JsonValue::String("sha256:33".to_string()))]),
    ];
    let plan = image.record_layers(&layers);
    assert_eq!(plan.error, Some(LayerError::BlobSumNotFound));
    assert_eq!(plan.downloads.len(), 1);
    assert_eq!(image.fs_layers, vec!["/tmp/11.tar.gz".to_string()]);
}

#[test]
fn parse_json_and_take_a_field() {
    let doc = parse_json(r#"{"a": [true, null, 1.5, "s"], "b": {"c": false}}"#).unwrap();
    match into_field(doc, "a") {
        Some(JsonValue::Array(items)) => {
            assert_eq!(items.len(), 4);
            assert!(matches!(&items[2], JsonValue::Number(n) if n == "1.5"));
        }
        _ => panic!("a is an array"),
    }
    assert!(parse_json("nope").is_none());
    assert!(into_field(JsonValue::Null, "a").is_none());
}
