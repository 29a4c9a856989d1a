use media_journal::{parse_upload_response, ConfigKey, EnvValues, ResponseError};

fn all_values() -> EnvValues {
    EnvValues {
        mongo_uri: Some(String::from("mongodb://localhost:27017")),
        mongo_db: Some(String::from("journal")),
        mongo_collection: Some(String::from("entries")),
        cloudinary_id: Some(String::from("acct-1")),
        cloudinary_api_key: Some(String::from("key-123")),
        cloudinary_preset: Some(String::from("preset-7")),
    }
}

#[test]
fn rich_response_parses() {
    let body = "{\"secure_url\":\"https://host/img123.jpg\",\"width\":800,\"height\":600}";
    let upload = parse_upload_response(body).unwrap();
    assert_eq!(upload.secure_url, "https://host/img123.jpg");
    assert_eq!(upload.width, Some(800));
    assert_eq!(upload.height, Some(600));
}

#[test]
fn plain_response_parses_without_dimensions() {
    let body = "{\"secure_url\":\"https://host/a.jpg\"}";
    let upload = parse_upload_response(body).unwrap();
    assert_eq!(upload.secure_url, "https://host/a.jpg");
    assert_eq!(upload.width, None);
    assert_eq!(upload.height, None);
}

#[test]
fn non_json_body_is_rejected() {
    let r = parse_upload_response("not json at all");
    assert!(matches!(r, Err(ResponseError::NotJson)));
    let r = parse_upload_response("");
    assert!(matches!(r, Err(ResponseError::NotJson)));
}

#[test]
fn json_without_secure_url_is_rejected() {
    let r = parse_upload_response("{\"width\":800}");
    assert!(matches!(r, Err(ResponseError::MissingSecureUrl)));
    let r = parse_upload_response("[1,2,3]");
    assert!(matches!(r, Err(ResponseError::MissingSecureUrl)));
}

#[test]
fn non_string_secure_url_is_rejected() {
    let r = parse_upload_response("{\"secure_url\":5}");
    assert!(matches!(r, Err(ResponseError::MissingSecureUrl)));
}

#[test]
fn non_integer_dimensions_are_dropped() {
    let body = "{\"secure_url\":\"https://host/a.jpg\",\"width\":\"800\",\"height\":-3}";
    let upload = parse_upload_response(body).unwrap();
    assert_eq!(upload.width, None);
    assert_eq!(upload.height, None);
}

#[test]
fn config_accepts_complete_environment() {
    let config = media_journal::Config::from_values(all_values()).unwrap();
    assert_eq!(config.mongo_uri, "mongodb://localhost:27017");
    assert_eq!(config.mongo_db, "journal");
    assert_eq!(config.mongo_collection, "entries");
    assert_eq!(config.cloudinary_id, "acct-1");
    assert_eq!(config.cloudinary_api_key, "key-123");
    assert_eq!(config.cloudinary_preset, "preset-7");
}

#[test]
fn config_names_each_missing_variable() {
    let cases: Vec<(usize, ConfigKey, &str)> = vec![
        (0, ConfigKey::MongoUri, "MONGO_URI"),
        (1, ConfigKey::MongoDb, "MONGO_DB"),
        (2, ConfigKey::MongoCollection, "MONGO_COLLECTION"),
        (3, ConfigKey::CloudinaryId, "CLOUDINARY_ID"),
        (4, ConfigKey::CloudinaryApiKey, "CLOUDINARY_API_KEY"),
        (5, ConfigKey::CloudinaryPreset, "CLOUDINARY_PRESET"),
    ];
    for (slot, key, name) in cases {
        let mut values = all_values();
        match slot {
            0 => values.mongo_uri = None,
            1 => values.mongo_db = None,
            2 => values.mongo_collection = None,
            3 => values.cloudinary_id = None,
            4 => values.cloudinary_api_key = None,
            _ => values.cloudinary_preset = None,
        }
        let r = media_journal::Config::from_values(values);
        match r {
            Err(k) => {
                assert_eq!(k, key);
                assert_eq!(k.var_name(), name);
            },
            Ok(_) => panic!("a missing variable must be reported"),
        }
    }
}

#[test]
fn config_reports_first_missing_in_order() {
    let mut values = all_values();
    values.mongo_db = None;
    values.cloudinary_preset = None;
    let r = media_journal::Config::from_values(values);
    assert!(matches!(r, Err(ConfigKey::MongoDb)));
}
