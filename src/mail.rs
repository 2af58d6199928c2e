use vstd::prelude::*;

verus! {

/// The subjects of the emails the service sends.
#[derive(Debug, Clone, Copy, PartialEq, Eq, Structural)]
pub enum MailSubject {
    PasswordReset,
    Welcome,
    AccountConfirmation,
    NewUserRegistered,
}

/// The subject line of each email.
pub open spec fn subject_line(s: MailSubject) -> Seq<char> {
    match s {
        MailSubject::PasswordReset => "Password reset"@,
        MailSubject::Welcome => "Welcome to Vinyl Keeper"@,
        MailSubject::AccountConfirmation => "Please confirm your account"@,
        MailSubject::NewUserRegistered => "New user registered"@,
    }
}

impl MailSubject {
    /// The subject line of this email.
    pub fn as_str(&self) -> (r: &'static str)
        ensures
            r@ == subject_line(*self),
    {
        match self {
            MailSubject::PasswordReset => "Password reset",
            MailSubject::Welcome => "Welcome to Vinyl Keeper",
            MailSubject::AccountConfirmation => "Please confirm your account",
            MailSubject::NewUserRegistered => "New user registered",
        }
    }
}

/// An email ready to be handed to the mail transport.
pub struct OutgoingMail {
    pub to: String,
    pub subject: MailSubject,
    pub body: String,
}

/// Body of the message telling the administrator of a new registration.
pub open spec fn register_mail_body(username: Seq<char>, user_email: Seq<char>) -> Seq<char> {
    "<!DOCTYPE html>\n<html>\n<body>\n    <p>Hello Admin,</p>\n    <p>A new user has registered:</p>\n    <ul>\n        <li><strong>Username:</strong> "@
        + username + "</li>\n        <li><strong>Email:</strong> "@ + user_email
        + "</li>\n    </ul>\n    <p>Best regards,<br>The Vinyl Keeper Team</p>\n</body>\n</html>"@
}

/// Body of the message carrying a password-reset link.
pub open spec fn reset_mail_body(frontend_url: Seq<char>, token: Seq<char>) -> Seq<char> {
    "<!DOCTYPE html>\n<html>\n<body>\n    <p>Hello,</p>\n    <p>Please click on the following link to reset your password:</p>\n    <p><a href=\""@
        + frontend_url + "/reset-password?token="@ + token
        + "\">Reset your password</a></p>\n    <p>If you did not request a password reset, please ignore this email. This link expires in 15 minutes.</p>\n    <p>Best regards,<br>The Vinyl Keeper Team</p>\n</body>\n</html>"@
}

/// Renders the new-registration notice for the administrator.
pub fn new_user_register_template(username: &str, user_email: &str) -> (r: String)
    ensures
        r@ == register_mail_body(username@, user_email@),
{
    let mut out = String::from_str(
        "<!DOCTYPE html>\n<html>\n<body>\n    <p>Hello Admin,</p>\n    <p>A new user has registered:</p>\n    <ul>\n        <li><strong>Username:</strong> ",
    );
    out.append(username);
    out.append("</li>\n        <li><strong>Email:</strong> ");
    out.append(user_email);
    out.append(
        "</li>\n    </ul>\n    <p>Best regards,<br>The Vinyl Keeper Team</p>\n</body>\n</html>",
    );
    out
}

/// Renders the password-reset message, linking to the front end at
/// `frontend_url`.
pub fn password_reset_template(frontend_url: &str, token: &str) -> (r: String)
    ensures
        r@ == reset_mail_body(frontend_url@, token@),
{
    let mut out = String::from_str(
        "<!DOCTYPE html>\n<html>\n<body>\n    <p>Hello,</p>\n    <p>Please click on the following link to reset your password:</p>\n    <p><a href=\"",
    );
    out.append(frontend_url);
    out.append("/reset-password?token=");
    out.append(token);
    out.append(
        "\">Reset your password</a></p>\n    <p>If you did not request a password reset, please ignore this email. This link expires in 15 minutes.</p>\n    <p>Best regards,<br>The Vinyl Keeper Team</p>\n</body>\n</html>",
    );
    out
}

/// The front end that reset links point to: under `APP_ENV=production` the
/// configured `FRONTEND_URL` (or the public site when none is set), else the
/// local development server.
pub open spec fn frontend_base(app_env: Option<Seq<char>>, configured: Option<Seq<char>>) -> Seq<
    char,
> {
    if app_env == Some("production"@) {
        match configured {
            Some(u) => u,
            None => "https://vinyl-keeper.quentingenet.fr"@,
        }
    } else {
        "http://127.0.0.1:5173"@
    }
}

/// The view of an optional string slice.
pub open spec fn opt_str_view(s: Option<&str>) -> Option<Seq<char>> {
    match s {
        Some(x) => Some(x@),
        None => None,
    }
}

/// Chooses the front end that reset links point to, from the values of the
/// `APP_ENV` and `FRONTEND_URL` settings.
pub fn frontend_url(app_env: Option<&str>, configured: Option<&str>) -> (r: String)
    ensures
        r@ == frontend_base(opt_str_view(app_env), opt_str_view(configured)),
{
    let production = match app_env {
        Some(e) => crate::text::equals_str(&crate::text::chars_of(e), "production"),
        None => false,
    };
    if production {
        match configured {
            Some(u) => u.to_owned(),
            None => String::from_str("https://vinyl-keeper.quentingenet.fr"),
        }
    } else {
        String::from_str("http://127.0.0.1:5173")
    }
}

} // verus!
