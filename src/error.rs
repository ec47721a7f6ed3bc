use vstd::prelude::*;

verus! {

/// The category of a [`MonitorError`].
#[derive(Clone, Copy, Debug, PartialEq, Eq, Structural)]
pub enum ErrorKind {
    Docker,
    Git,
    Authentication,
    Config,
    AppManager,
    PackageManager,
    WebhookValidation,
    Io,
    Json,
}

/// A failure reported by one of the monitor's components, with its message.
#[derive(Clone, Debug)]
pub enum MonitorError {
    Docker(String),
    Git(String),
    Authentication(String),
    Config(String),
    AppManager(String),
    PackageManager(String),
    WebhookValidation(String),
    Io(String),
    Json(String),
}

pub type Result<T> = core::result::Result<T, MonitorError>;

impl View for MonitorError {
    type V = (ErrorKind, Seq<char>);

    open spec fn view(&self) -> (ErrorKind, Seq<char>) {
        (self.spec_kind(), self.spec_message())
    }
}

/// A result with its success value and its error each seen through their views.
pub open spec fn result_view<T: View>(r: Result<T>) -> core::result::Result<T::V, (ErrorKind, Seq<char>)> {
    match r {
        Ok(v) => Ok(v@),
        Err(e) => Err(e@),
    }
}

/// A result seen only as success or as its error's view.
pub open spec fn success_view<T>(r: Result<T>) -> core::result::Result<(), (ErrorKind, Seq<char>)> {
    match r {
        Ok(_) => Ok(()),
        Err(e) => Err(e@),
    }
}

impl MonitorError {
    pub open spec fn spec_kind(&self) -> ErrorKind {
        match self {
            MonitorError::Docker(_) => ErrorKind::Docker,
            MonitorError::Git(_) => ErrorKind::Git,
            MonitorError::Authentication(_) => ErrorKind::Authentication,
            MonitorError::Config(_) => ErrorKind::Config,
            MonitorError::AppManager(_) => ErrorKind::AppManager,
            MonitorError::PackageManager(_) => ErrorKind::PackageManager,
            MonitorError::WebhookValidation(_) => ErrorKind::WebhookValidation,
            MonitorError::Io(_) => ErrorKind::Io,
            MonitorError::Json(_) => ErrorKind::Json,
        }
    }

    /// The message carried by the error, without its category prefix.
    pub open spec fn spec_message(&self) -> Seq<char> {
        match self {
            MonitorError::Docker(m) => m@,
            MonitorError::Git(m) => m@,
            MonitorError::Authentication(m) => m@,
            MonitorError::Config(m) => m@,
            MonitorError::AppManager(m) => m@,
            MonitorError::PackageManager(m) => m@,
            MonitorError::WebhookValidation(m) => m@,
            MonitorError::Io(m) => m@,
            MonitorError::Json(m) => m@,
        }
    }

    pub open spec fn prefix_of(kind: ErrorKind) -> Seq<char> {
        match kind {
            ErrorKind::Docker => "Docker error: "@,
            ErrorKind::Git => "Git error: "@,
            ErrorKind::Authentication => "Authentication error: "@,
            ErrorKind::Config => "Configuration error: "@,
            ErrorKind::AppManager => "Application error: "@,
            ErrorKind::PackageManager => "Package manager error: "@,
            ErrorKind::WebhookValidation => "Webhook validation error: "@,
            ErrorKind::Io => "IO error: "@,
            ErrorKind::Json => "JSON error: "@,
        }
    }

    /// The text shown for the error: its category prefix followed by its message.
    pub open spec fn spec_display(&self) -> Seq<char> {
        Self::prefix_of(self.spec_kind()) + self.spec_message()
    }

    /// A copy of the error, same category and same message.
    pub fn duplicate(&self) -> (r: MonitorError)
        ensures
            r@ == self@,
    {
        match self {
            MonitorError::Docker(m) => MonitorError::Docker(m.clone()),
            MonitorError::Git(m) => MonitorError::Git(m.clone()),
            MonitorError::Authentication(m) => MonitorError::Authentication(m.clone()),
            MonitorError::Config(m) => MonitorError::Config(m.clone()),
            MonitorError::AppManager(m) => MonitorError::AppManager(m.clone()),
            MonitorError::PackageManager(m) => MonitorError::PackageManager(m.clone()),
            MonitorError::WebhookValidation(m) => MonitorError::WebhookValidation(m.clone()),
            MonitorError::Io(m) => MonitorError::Io(m.clone()),
            MonitorError::Json(m) => MonitorError::Json(m.clone()),
        }
    }

    pub fn kind(&self) -> (r: ErrorKind)
        ensures
            r == self.spec_kind(),
    {
        match self {
            MonitorError::Docker(_) => ErrorKind::Docker,
            MonitorError::Git(_) => ErrorKind::Git,
            MonitorError::Authentication(_) => ErrorKind::Authentication,
            MonitorError::Config(_) => ErrorKind::Config,
            MonitorError::AppManager(_) => ErrorKind::AppManager,
            MonitorError::PackageManager(_) => ErrorKind::PackageManager,
            MonitorError::WebhookValidation(_) => ErrorKind::WebhookValidation,
            MonitorError::Io(_) => ErrorKind::Io,
            MonitorError::Json(_) => ErrorKind::Json,
        }
    }

    pub fn message(&self) -> (r: &str)
        ensures
            r@ == self.spec_message(),
    {
        match self {
            MonitorError::Docker(m) => m.as_str(),
            MonitorError::Git(m) => m.as_str(),
            MonitorError::Authentication(m) => m.as_str(),
            MonitorError::Config(m) => m.as_str(),
            MonitorError::AppManager(m) => m.as_str(),
            MonitorError::PackageManager(m) => m.as_str(),
            MonitorError::WebhookValidation(m) => m.as_str(),
            MonitorError::Io(m) => m.as_str(),
            MonitorError::Json(m) => m.as_str(),
        }
    }

    /// The displayed text of the error, category prefix first.
    pub fn to_string(&self) -> (r: String)
        ensures
            r@ == self.spec_display(),
    {
        let prefix = match self.kind() {
            ErrorKind::Docker => "Docker error: ",
            ErrorKind::Git => "Git error: ",
            ErrorKind::Authentication => "Authentication error: ",
            ErrorKind::Config => "Configuration error: ",
            ErrorKind::AppManager => "Application error: ",
            ErrorKind::PackageManager => "Package manager error: ",
            ErrorKind::WebhookValidation => "Webhook validation error: ",
            ErrorKind::Io => "IO error: ",
            ErrorKind::Json => "JSON error: ",
        };
        let mut s = prefix.to_string();
        s.append(self.message());
        s
    }
}

} // verus!
