//! Application settings and their validation rules.
use crate::text::{
    decimal_text, has_prefix, is_blank, is_blank_seq, is_empty_text, lowercase, owned, push_decimal, push_str,
    starts_with, str_eq, to_lowercase,
};
use std::path::PathBuf;
use vstd::prelude::*;

verus! {

broadcast use vstd::string::group_string_axioms;

#[verifier::external_type_specification]
#[verifier::external_body]
pub struct ExPathBuf(std::path::PathBuf);

/// What `PathBuf::from` builds from the text `s`: a path that holds exactly
/// that text.
pub uninterp spec fn path_of(s: Seq<char>) -> PathBuf;

/// `PathBuf::from(&String)` (std): the path whose text is `s`.
#[verifier::external_body]
fn path_from(s: &String) -> (p: PathBuf)
    ensures
        p == path_of(s@),
{
    PathBuf::from(s)
}

/// Upper bound on `max_file_size`: 100 MiB.
pub const MAX_UPLOAD_FILE_SIZE: usize = 104857600;

/// Where the HTTP server listens and how clients reach it.
#[derive(Clone)]
pub struct ApplicationSettings {
    pub port: u16,
    pub host: String,
    pub base_url: String,
    pub ssl: Option<SslSettings>,
}

/// TLS certificate and key locations.
#[derive(Clone)]
pub struct SslSettings {
    pub enabled: bool,
    pub certificate_path: String,
    pub private_key_path: String,
}

/// Limits and locations for uploaded item images.
#[derive(Clone)]
pub struct UploadSettings {
    pub max_file_size: usize,
    pub max_files_per_item: usize,
    pub allowed_types: Vec<String>,
    pub upload_dir: String,
    pub temp_dir: String,
    pub enable_image_processing: Option<bool>,
    pub max_image_width: Option<u32>,
    pub max_image_height: Option<u32>,
}

/// A MIME type accepted for images: it begins with `image/`.
pub open spec fn is_image_mime(t: Seq<char>) -> bool {
    has_prefix(t, "image/"@)
}

/// The first entry of `ts` that is not an image MIME type.
pub open spec fn first_invalid_mime(ts: Seq<String>) -> Option<Seq<char>>
    decreases ts.len(),
{
    if ts.len() == 0 {
        None
    } else if !is_image_mime(ts[0]@) {
        Some(ts[0]@)
    } else {
        first_invalid_mime(ts.drop_first())
    }
}

/// A dimension limit outside 1..=10000.
pub open spec fn bad_dimension(d: Option<u32>) -> bool {
    match d {
        Some(v) => v == 0 || v > 10000,
        None => false,
    }
}

impl UploadSettings {
    /// The first rule these settings break, as the message `validate` reports,
    /// or `None` when they are valid.
    pub open spec fn validation_error(&self) -> Option<Seq<char>> {
        if self.max_file_size == 0 {
            Some("max_file_size must be greater than 0"@)
        } else if self.max_file_size > MAX_UPLOAD_FILE_SIZE {
            Some("max_file_size cannot exceed 100MB"@)
        } else if self.max_files_per_item == 0 || self.max_files_per_item > 10 {
            Some("max_files_per_item must be between 1 and 10"@)
        } else if self.allowed_types.len() == 0 {
            Some("allowed_types cannot be empty"@)
        } else if first_invalid_mime(self.allowed_types@) is Some {
            Some("Invalid MIME type: "@ + first_invalid_mime(self.allowed_types@)->0)
        } else if is_blank_seq(self.upload_dir@) {
            Some("upload_dir cannot be empty"@)
        } else if is_blank_seq(self.temp_dir@) {
            Some("temp_dir cannot be empty"@)
        } else if bad_dimension(self.max_image_width) {
            Some("max_image_width must be between 1 and 10000"@)
        } else if bad_dimension(self.max_image_height) {
            Some("max_image_height must be between 1 and 10000"@)
        } else {
            None
        }
    }

    fn find_invalid_mime(&self) -> (r: Option<String>)
        ensures
            match r {
                Some(t) => first_invalid_mime(self.allowed_types@) == Some(t@),
                None => first_invalid_mime(self.allowed_types@) is None,
            },
    {
        let mut i: usize = 0;
        assert(self.allowed_types@.skip(0) =~= self.allowed_types@);
        while i < self.allowed_types.len()
            invariant
                i <= self.allowed_types.len(),
                first_invalid_mime(self.allowed_types@) == first_invalid_mime(
                    self.allowed_types@.skip(i as int),
                ),
            decreases self.allowed_types.len() - i,
        {
            let t = &self.allowed_types[i];
            assert(self.allowed_types@.skip(i as int)[0] == *t);
            if !starts_with(t.as_str(), "image/") {
                return Some(t.clone());
            }
            assert(self.allowed_types@.skip(i as int).drop_first() =~= self.allowed_types@.skip(
                i + 1,
            ));
            i = i + 1;
        }
        None
    }

    /// Checks the settings, returning the message of the first rule broken.
    pub fn validate(&self) -> (r: Result<(), String>)
        ensures
            match r {
                Ok(()) => self.validation_error() is None,
                Err(e) => self.validation_error() == Some(e@),
            },
    {
        if self.max_file_size == 0 {
            return Err("max_file_size must be greater than 0".to_string());
        }
        if self.max_file_size > MAX_UPLOAD_FILE_SIZE {
            return Err("max_file_size cannot exceed 100MB".to_string());
        }
        if self.max_files_per_item == 0 || self.max_files_per_item > 10 {
            return Err("max_files_per_item must be between 1 and 10".to_string());
        }
        if self.allowed_types.len() == 0 {
            return Err("allowed_types cannot be empty".to_string());
        }
        match self.find_invalid_mime() {
            Some(t) => {
                let mut msg = owned("Invalid MIME type: ");
                push_str(&mut msg, t.as_str());
                return Err(msg);
            },
            None => {},
        }
        if is_blank(self.upload_dir.as_str()) {
            return Err("upload_dir cannot be empty".to_string());
        }
        if is_blank(self.temp_dir.as_str()) {
            return Err("temp_dir cannot be empty".to_string());
        }
        match self.max_image_width {
            Some(width) => {
                if width == 0 || width > 10000 {
                    return Err("max_image_width must be between 1 and 10000".to_string());
                }
            },
            None => {},
        }
        match self.max_image_height {
            Some(height) => {
                if height == 0 || height > 10000 {
                    return Err("max_image_height must be between 1 and 10000".to_string());
                }
            },
            None => {},
        }
        Ok(())
    }

    /// Whether `mime_type` is one of the allowed types, compared exactly.
    pub fn is_allowed_mime_type(&self, mime_type: &str) -> (b: bool)
        ensures
            b <==> exists|i: int|
                0 <= i < self.allowed_types.len() && (#[trigger] self.allowed_types@[i])@
                    == mime_type@,
    {
        let mut i: usize = 0;
        while i < self.allowed_types.len()
            invariant
                i <= self.allowed_types.len(),
                forall|j: int|
                    0 <= j < i ==> (#[trigger] self.allowed_types@[j])@ != mime_type@,
            decreases self.allowed_types.len() - i,
        {
            if str_eq(self.allowed_types[i].as_str(), mime_type) {
                assert(self.allowed_types@[i as int]@ == mime_type@);
                return true;
            }
            i = i + 1;
        }
        false
    }

    /// The upload directory as a path.
    pub fn get_upload_path(&self) -> (p: PathBuf)
        ensures
            p == path_of(self.upload_dir@),
    {
        path_from(&self.upload_dir)
    }

    /// The temporary directory as a path.
    pub fn get_temp_path(&self) -> (p: PathBuf)
        ensures
            p == path_of(self.temp_dir@),
    {
        path_from(&self.temp_dir)
    }
}

impl Default for UploadSettings {
    /// 10 MiB per file, 5 files per item, JPEG, PNG and WebP, under
    /// `./uploads`, with 4096-pixel limits and image processing off.
    fn default() -> (s: Self)
        ensures
            s.max_file_size == 10485760,
            s.max_files_per_item == 5,
            s.allowed_types@.len() == 3,
            s.allowed_types@[0]@ == "image/jpeg"@,
            s.allowed_types@[1]@ == "image/png"@,
            s.allowed_types@[2]@ == "image/webp"@,
            s.upload_dir@ == "./uploads"@,
            s.temp_dir@ == "./uploads/temp"@,
            s.enable_image_processing == Some(false),
            s.max_image_width == Some(4096u32),
            s.max_image_height == Some(4096u32),
    {
        let mut allowed_types: Vec<String> = Vec::new();
        allowed_types.push("image/jpeg".to_string());
        allowed_types.push("image/png".to_string());
        allowed_types.push("image/webp".to_string());
        UploadSettings {
            max_file_size: 10485760,
            max_files_per_item: 5,
            allowed_types,
            upload_dir: "./uploads".to_string(),
            temp_dir: "./uploads/temp".to_string(),
            enable_image_processing: Some(false),
            max_image_width: Some(4096),
            max_image_height: Some(4096),
        }
    }
}

/// The seller account and retry policy used when seeding the database.
#[derive(Clone)]
pub struct SeedingSettings {
    pub enabled: bool,
    pub environment_filter: Vec<String>,
    pub retry_attempts: u32,
    pub retry_delay_seconds: u64,
    pub seller_username: String,
    pub seller_email: String,
    pub seller_first_name: String,
    pub seller_last_name: String,
    pub seller_phone: String,
    pub seller_location: String,
    pub seller_country: String,
}

/// The environment name used when `APP_ENVIRONMENT` is not set.
pub open spec fn effective_environment(app_environment: Option<Seq<char>>) -> Seq<char> {
    match app_environment {
        Some(e) => lowercase(e),
        None => lowercase("local"@),
    }
}

impl SeedingSettings {
    /// The first rule these settings break, as the message `validate` reports.
    pub open spec fn validation_error(&self) -> Option<Seq<char>> {
        if is_blank_seq(self.seller_username@) {
            Some("seller_username cannot be empty"@)
        } else if is_blank_seq(self.seller_email@) {
            Some("seller_email cannot be empty"@)
        } else if is_blank_seq(self.seller_first_name@) {
            Some("seller_first_name cannot be empty"@)
        } else if is_blank_seq(self.seller_last_name@) {
            Some("seller_last_name cannot be empty"@)
        } else if self.retry_attempts == 0 || self.retry_attempts > 10 {
            Some("retry_attempts must be between 1 and 10"@)
        } else if self.retry_delay_seconds == 0 || self.retry_delay_seconds > 60 {
            Some("retry_delay_seconds must be between 1 and 60"@)
        } else {
            None
        }
    }

    /// Seeding runs when it is enabled and the current environment (the value
    /// of `APP_ENVIRONMENT`, `local` when unset) matches one of the filter
    /// entries, both compared in lower case.
    pub open spec fn seeding_applies(&self, app_environment: Option<Seq<char>>) -> bool {
        self.enabled && exists|i: int|
            0 <= i < self.environment_filter.len() && lowercase(
                (#[trigger] self.environment_filter@[i])@,
            ) == effective_environment(app_environment)
    }

    /// Whether seeding should run in the environment named by
    /// `app_environment` (the value of `APP_ENVIRONMENT`, if set).
    pub fn should_run_seeding(&self, app_environment: Option<&str>) -> (b: bool)
        ensures
            b == self.seeding_applies(
                match app_environment {
                    Some(e) => Some(e@),
                    None => None,
                },
            ),
    {
        let ghost env = match app_environment {
            Some(e) => Some(e@),
            None => None,
        };
        if !self.enabled {
            return false;
        }
        let current = match app_environment {
            Some(e) => to_lowercase(e),
            None => to_lowercase("local"),
        };
        let mut i: usize = 0;
        while i < self.environment_filter.len()
            invariant
                i <= self.environment_filter.len(),
                self.enabled,
                env == match app_environment {
                    Some(e) => Some(e@),
                    None => None,
                },
                current@ == effective_environment(env),
                forall|j: int|
                    0 <= j < i ==> lowercase((#[trigger] self.environment_filter@[j])@)
                        != current@,
            decreases self.environment_filter.len() - i,
        {
            let candidate = to_lowercase(self.environment_filter[i].as_str());
            if str_eq(candidate.as_str(), current.as_str()) {
                assert(lowercase(self.environment_filter@[i as int]@) == current@);
                assert(self.seeding_applies(env));
                return true;
            }
            i = i + 1;
        }
        false
    }

    /// Checks the settings, returning the message of the first rule broken.
    pub fn validate(&self) -> (r: Result<(), String>)
        ensures
            match r {
                Ok(()) => self.validation_error() is None,
                Err(e) => self.validation_error() == Some(e@),
            },
    {
        if is_blank(self.seller_username.as_str()) {
            return Err("seller_username cannot be empty".to_string());
        }
        if is_blank(self.seller_email.as_str()) {
            return Err("seller_email cannot be empty".to_string());
        }
        if is_blank(self.seller_first_name.as_str()) {
            return Err("seller_first_name cannot be empty".to_string());
        }
        if is_blank(self.seller_last_name.as_str()) {
            return Err("seller_last_name cannot be empty".to_string());
        }
        if self.retry_attempts == 0 || self.retry_attempts > 10 {
            return Err("retry_attempts must be between 1 and 10".to_string());
        }
        if self.retry_delay_seconds == 0 || self.retry_delay_seconds > 60 {
            return Err("retry_delay_seconds must be between 1 and 60".to_string());
        }
        Ok(())
    }
}

impl Default for SeedingSettings {
    /// Seeding enabled for `production` and `docker`, three attempts two
    /// seconds apart, and the default seller account.
    fn default() -> (s: Self)
        ensures
            s.enabled,
            s.environment_filter@.len() == 2,
            s.environment_filter@[0]@ == "production"@,
            s.environment_filter@[1]@ == "docker"@,
            s.retry_attempts == 3,
            s.retry_delay_seconds == 2,
            s.seller_username@ == "o paliatzis"@,
            s.seller_email@ == "paliatzis@example.com"@,
            s.seller_first_name@ == "Παλιάτζης"@,
            s.seller_last_name@ == "Ο"@,
            s.seller_phone@ == "+30 2101234567"@,
            s.seller_location@ == "Athens"@,
            s.seller_country@ == "Greece"@,
    {
        let mut environment_filter: Vec<String> = Vec::new();
        environment_filter.push("production".to_string());
        environment_filter.push("docker".to_string());
        SeedingSettings {
            enabled: true,
            environment_filter,
            retry_attempts: 3,
            retry_delay_seconds: 2,
            seller_username: "o paliatzis".to_string(),
            seller_email: "paliatzis@example.com".to_string(),
            seller_first_name: "Παλιάτζης".to_string(),
            seller_last_name: "Ο".to_string(),
            seller_phone: "+30 2101234567".to_string(),
            seller_location: "Athens".to_string(),
            seller_country: "Greece".to_string(),
        }
    }
}

/// Connection parameters of the PostgreSQL database.
#[derive(Clone)]
pub struct DatabaseSettings {
    pub username: String,
    pub password: String,
    pub port: u16,
    pub host: String,
    pub database_name: String,
    pub require_ssl: bool,
}

impl DatabaseSettings {
    /// `postgres://{username}:{password}@{host}:{port}`.
    pub open spec fn server_url(&self) -> Seq<char> {
        "postgres://"@ + self.username@ + ":"@ + self.password@ + "@"@ + self.host@ + ":"@
            + decimal_text(self.port as nat)
    }

    /// The connection URL of the configured database.
    pub fn connection_string(&self) -> (s: String)
        ensures
            s@ == self.server_url() + "/"@ + self.database_name@,
    {
        let mut s = self.connection_string_without_db();
        push_str(&mut s, "/");
        push_str(&mut s, self.database_name.as_str());
        s
    }

    /// The connection URL of the database server, without a database name.
    pub fn connection_string_without_db(&self) -> (s: String)
        ensures
            s@ == self.server_url(),
    {
        let mut s = owned("postgres://");
        push_str(&mut s, self.username.as_str());
        push_str(&mut s, ":");
        push_str(&mut s, self.password.as_str());
        push_str(&mut s, "@");
        push_str(&mut s, self.host.as_str());
        push_str(&mut s, ":");
        push_decimal(&mut s, self.port as u64);
        s
    }
}

/// All settings of the application.
#[derive(Clone)]
pub struct Settings {
    pub database: DatabaseSettings,
    pub application: ApplicationSettings,
    pub uploads: UploadSettings,
    pub seeding: SeedingSettings,
}

/// The image types allowed by default: JPEG, PNG and WebP.
pub open spec fn is_default_types(t: Seq<String>) -> bool {
    &&& t.len() == 3
    &&& t[0]@ == "image/jpeg"@
    &&& t[1]@ == "image/png"@
    &&& t[2]@ == "image/webp"@
}

/// The default seeding settings.
pub open spec fn is_default_seeding(s: SeedingSettings) -> bool {
    &&& s.enabled
    &&& s.environment_filter@.len() == 2
    &&& s.environment_filter@[0]@ == "production"@
    &&& s.environment_filter@[1]@ == "docker"@
    &&& s.retry_attempts == 3
    &&& s.retry_delay_seconds == 2
    &&& s.seller_username@ == "o paliatzis"@
    &&& s.seller_email@ == "paliatzis@example.com"@
    &&& s.seller_first_name@ == "Παλιάτζης"@
    &&& s.seller_last_name@ == "Ο"@
    &&& s.seller_phone@ == "+30 2101234567"@
    &&& s.seller_location@ == "Athens"@
    &&& s.seller_country@ == "Greece"@
}

/// `u` is the upload settings `read`, with the default image types when
/// none are listed.
pub open spec fn uploads_completed(read: UploadSettings, u: UploadSettings) -> bool {
    if read.allowed_types@.len() == 0 {
        &&& is_default_types(u.allowed_types@)
        &&& u.max_file_size == read.max_file_size
        &&& u.max_files_per_item == read.max_files_per_item
        &&& u.upload_dir == read.upload_dir
        &&& u.temp_dir == read.temp_dir
        &&& u.enable_image_processing == read.enable_image_processing
        &&& u.max_image_width == read.max_image_width
        &&& u.max_image_height == read.max_image_height
    } else {
        u == read
    }
}

/// `s` is the seeding settings `read`, or the defaults when no seller is
/// named.
pub open spec fn seeding_completed(read: SeedingSettings, s: SeedingSettings) -> bool {
    if read.seller_username@.len() == 0 {
        is_default_seeding(s)
    } else {
        s == read
    }
}

impl Settings {
    /// Fills in the defaults of the settings just read and checks them: the
    /// upload settings first, then the seeding settings, each refusal
    /// prefixed with the part it concerns.
    pub fn complete(self) -> (r: Result<Settings, String>)
        ensures
            match r {
                Ok(s) => s.database == self.database && s.application == self.application
                    && uploads_completed(self.uploads, s.uploads) && seeding_completed(
                    self.seeding,
                    s.seeding,
                ) && s.uploads.validation_error() is None && s.seeding.validation_error() is None,
                Err(e) => exists|u: UploadSettings, sd: SeedingSettings|
                    uploads_completed(self.uploads, u) && seeding_completed(self.seeding, sd)
                        && match u.validation_error() {
                        Some(m) => e@ == "Upload configuration error: "@ + m,
                        None => sd.validation_error() matches Some(m) && e@
                            == "Seeding configuration error: "@ + m,
                    },
            },
    {
        let mut settings = self;
        if settings.uploads.allowed_types.len() == 0 {
            settings.uploads.allowed_types = UploadSettings::default().allowed_types;
        }
        if is_empty_text(settings.seeding.seller_username.as_str()) {
            settings.seeding = SeedingSettings::default();
        }
        assert(uploads_completed(self.uploads, settings.uploads));
        assert(seeding_completed(self.seeding, settings.seeding));
        match settings.uploads.validate() {
            Ok(()) => {},
            Err(e) => {
                let mut m = owned("Upload configuration error: ");
                push_str(&mut m, e.as_str());
                return Err(m);
            },
        }
        match settings.seeding.validate() {
            Ok(()) => {},
            Err(e) => {
                let mut m = owned("Seeding configuration error: ");
                push_str(&mut m, e.as_str());
                return Err(m);
            },
        }
        Ok(settings)
    }
}

/// The deployment environment, chosen by `APP_ENVIRONMENT`.
#[derive(PartialEq, Eq, Structural, Clone, Copy, Debug)]
pub enum Environment {
    Local,
    Production,
}

impl Environment {
    /// The name of the environment, which is also its configuration file's stem.
    pub open spec fn name(self) -> Seq<char> {
        match self {
            Environment::Local => "local"@,
            Environment::Production => "production"@,
        }
    }

    pub fn as_str(&self) -> (s: &'static str)
        ensures
            s@ == self.name(),
    {
        match self {
            Environment::Local => "local",
            Environment::Production => "production",
        }
    }

    /// Parses an environment name, ignoring case; any other name is refused
    /// with a message that quotes it.
    pub fn try_from(s: String) -> (r: Result<Environment, String>)
        ensures
            lowercase(s@) == "local"@ ==> r == Ok::<Environment, String>(Environment::Local),
            lowercase(s@) == "production"@ ==> r == Ok::<Environment, String>(
                Environment::Production,
            ),
            lowercase(s@) != "local"@ && lowercase(s@) != "production"@ ==> (r matches Err(e)
                && e@ == lowercase(s@)
                + " is not a supported Environment. use `local` or `production`."@),
    {
        proof {
            reveal_strlit("local");
            reveal_strlit("production");
            assert("production"@.len() != "local"@.len());
        }
        let lower = to_lowercase(s.as_str());
        if str_eq(lower.as_str(), "local") {
            Ok(Environment::Local)
        } else if str_eq(lower.as_str(), "production") {
            Ok(Environment::Production)
        } else {
            let mut msg = lower;
            push_str(&mut msg, " is not a supported Environment. use `local` or `production`.");
            Err(msg)
        }
    }
}

} // verus!
