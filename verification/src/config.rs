//! Validation of the six required environment values. The application reads
//! the process environment; this module decides whether a run may proceed,
//! and which variable to name when it may not.

use vstd::prelude::*;
use vstd::string::*;

verus! {

/// The six required environment values as the application found them:
/// `None` where the variable is absent. No defaults exist.
pub struct EnvValues {
    pub mongo_uri: Option<String>,
    pub mongo_db: Option<String>,
    pub mongo_collection: Option<String>,
    pub cloudinary_id: Option<String>,
    pub cloudinary_api_key: Option<String>,
    pub cloudinary_preset: Option<String>,
}

/// Names of the six required environment variables.
#[derive(Clone, Copy, PartialEq, Eq, Structural, Debug)]
pub enum ConfigKey {
    MongoUri,
    MongoDb,
    MongoCollection,
    CloudinaryId,
    CloudinaryApiKey,
    CloudinaryPreset,
}

/// The name under which a key stands in the environment.
pub open spec fn var_name_spec(k: ConfigKey) -> Seq<char> {
    match k {
        ConfigKey::MongoUri => "MONGO_URI"@,
        ConfigKey::MongoDb => "MONGO_DB"@,
        ConfigKey::MongoCollection => "MONGO_COLLECTION"@,
        ConfigKey::CloudinaryId => "CLOUDINARY_ID"@,
        ConfigKey::CloudinaryApiKey => "CLOUDINARY_API_KEY"@,
        ConfigKey::CloudinaryPreset => "CLOUDINARY_PRESET"@,
    }
}

impl ConfigKey {
    /// The environment variable this key names.
    pub fn var_name(self) -> (r: &'static str)
        ensures
            r@ == var_name_spec(self),
    {
        match self {
            ConfigKey::MongoUri => "MONGO_URI",
            ConfigKey::MongoDb => "MONGO_DB",
            ConfigKey::MongoCollection => "MONGO_COLLECTION",
            ConfigKey::CloudinaryId => "CLOUDINARY_ID",
            ConfigKey::CloudinaryApiKey => "CLOUDINARY_API_KEY",
            ConfigKey::CloudinaryPreset => "CLOUDINARY_PRESET",
        }
    }
}

/// The validated configuration: every required value present.
pub struct Config {
    pub mongo_uri: String,
    pub mongo_db: String,
    pub mongo_collection: String,
    pub cloudinary_id: String,
    pub cloudinary_api_key: String,
    pub cloudinary_preset: String,
}

/// The first absent value, in the fixed order the keys are declared in;
/// `None` when all six are present.
pub open spec fn first_missing(v: EnvValues) -> Option<ConfigKey> {
    if v.mongo_uri is None {
        Some(ConfigKey::MongoUri)
    } else if v.mongo_db is None {
        Some(ConfigKey::MongoDb)
    } else if v.mongo_collection is None {
        Some(ConfigKey::MongoCollection)
    } else if v.cloudinary_id is None {
        Some(ConfigKey::CloudinaryId)
    } else if v.cloudinary_api_key is None {
        Some(ConfigKey::CloudinaryApiKey)
    } else if v.cloudinary_preset is None {
        Some(ConfigKey::CloudinaryPreset)
    } else {
        None
    }
}

impl Config {
    /// Validate the environment values: succeeds exactly when all six are
    /// present, taking each verbatim; otherwise reports the first missing
    /// key, before anything else is attempted.
    pub fn from_values(v: EnvValues) -> (r: Result<Config, ConfigKey>)
        ensures
            match r {
                Ok(c) => {
                    &&& first_missing(v) is None
                    &&& v.mongo_uri == Some(c.mongo_uri)
                    &&& v.mongo_db == Some(c.mongo_db)
                    &&& v.mongo_collection == Some(c.mongo_collection)
                    &&& v.cloudinary_id == Some(c.cloudinary_id)
                    &&& v.cloudinary_api_key == Some(c.cloudinary_api_key)
                    &&& v.cloudinary_preset == Some(c.cloudinary_preset)
                },
                Err(k) => first_missing(v) == Some(k),
            },
    {
        let EnvValues {
            mongo_uri,
            mongo_db,
            mongo_collection,
            cloudinary_id,
            cloudinary_api_key,
            cloudinary_preset,
        } = v;
        let mongo_uri = match mongo_uri {
            Some(x) => x,
            None => {
                return Err(ConfigKey::MongoUri);
            },
        };
        let mongo_db = match mongo_db {
            Some(x) => x,
            None => {
                return Err(ConfigKey::MongoDb);
            },
        };
        let mongo_collection = match mongo_collection {
            Some(x) => x,
            None => {
                return Err(ConfigKey::MongoCollection);
            },
        };
        let cloudinary_id = match cloudinary_id {
            Some(x) => x,
            None => {
                return Err(ConfigKey::CloudinaryId);
            },
        };
        let cloudinary_api_key = match cloudinary_api_key {
            Some(x) => x,
            None => {
                return Err(ConfigKey::CloudinaryApiKey);
            },
        };
        let cloudinary_preset = match cloudinary_preset {
            Some(x) => x,
            None => {
                return Err(ConfigKey::CloudinaryPreset);
            },
        };
        Ok(
            Config {
                mongo_uri,
                mongo_db,
                mongo_collection,
                cloudinary_id,
                cloudinary_api_key,
                cloudinary_preset,
            },
        )
    }
}

} // verus!
