//! The login form: its schema, and what the login page decides.
use vstd::prelude::*;
use crate::builder::Builder;
use crate::form::{FormData, FormDataView, ValueView};
use crate::schema::{FieldView, SchemaView, Schemas, Type, TypeView};
use crate::transform::Transformer;
use crate::validate::Validator;

verus! {

/// The schema of the login form: who logs in, with what password, and,
/// where the console is not served by the mail server itself, on which
/// host.
pub open spec fn login_schema() -> SchemaView {
    SchemaView::new("login"@).with_field(
        FieldView::new("login"@).with_type(TypeView::Input).with_checks(
            seq![Transformer::RemoveSpaces, Transformer::Lowercase],
            seq![Validator::Required],
        ),
    ).with_field(
        FieldView::new("password"@).with_type(TypeView::Secret).with_checks(
            Seq::empty(),
            seq![Validator::Required],
        ),
    ).with_field(
        FieldView::new("base-url"@).with_checks(seq![Transformer::Trim], seq![Validator::IsUrl]),
    )
}

impl Builder<Schemas, ()> {
    /// Registers the schema of the login form, under the name `login`,
    /// which must be free.
    pub fn build_login(self) -> (r: Builder<Schemas, ()>)
        requires
            self.wf(),
            !self.parent.contains("login"@),
        ensures
            r.wf(),
            r.parent@ == self.parent@.push(login_schema()),
    {
        let login_transformers = [Transformer::RemoveSpaces, Transformer::Lowercase];
        let required = [Validator::Required];
        let none: [Transformer; 0] = [];
        let trim = [Transformer::Trim];
        let is_url = [Validator::IsUrl];
        proof {
            reveal_strlit("login");
            reveal_strlit("password");
            reveal_strlit("base-url");
            assert("login"@.len() == 5);
            assert("password"@.len() == 8 && "password"@[0] == 'p');
            assert("base-url"@.len() == 8 && "base-url"@[0] == 'b');
            assert(login_transformers@ =~= seq![Transformer::RemoveSpaces, Transformer::Lowercase]);
            assert(required@ =~= seq![Validator::Required]);
            assert(none@ =~= Seq::<Transformer>::empty());
            assert(trim@ =~= seq![Transformer::Trim]);
            assert(is_url@ =~= seq![Validator::IsUrl]);
        }
        self.new_schema("login").new_field("login").typ(Type::Input).input_check(
            login_transformers.as_slice(),
            required.as_slice(),
        ).build().new_field("password").typ(Type::Secret).input_check(
            none.as_slice(),
            required.as_slice(),
        ).build().new_field("base-url").input_check(trim.as_slice(), is_url.as_slice()).build().build()
    }
}

/// What the browser remembers of the last login, where the user asked
/// for it.
#[derive(Clone, Debug, PartialEq, Eq)]
pub struct SavedSession {
    pub login: String,
    pub base_url: String,
}

/// What the server grants for a login and a password.
#[derive(Clone, Debug, PartialEq, Eq)]
pub struct OAuthGrant {
    pub access_token: String,
    pub refresh_token: Option<String>,
    /// For how many seconds the access token is good.
    pub expires_in: u64,
}

/// The session: what every later request to the server goes by.
#[derive(Clone, Debug, PartialEq, Eq)]
pub struct AuthToken {
    pub access_token: String,
    pub refresh_token: String,
    pub base_url: String,
    pub username: String,
    pub is_valid: bool,
    pub is_admin: bool,
}

/// What to do with the remembered login.
#[derive(Clone, Debug, PartialEq, Eq)]
pub enum Remember {
    /// Keep this one.
    Save(SavedSession),
    /// Keep none.
    Forget,
}

/// A login form that passed validation: what to ask the server, and
/// what to remember.
#[derive(Clone, Debug, PartialEq, Eq)]
pub struct LoginRequest {
    pub username: String,
    pub password: String,
    pub base_url: String,
    pub remember: Remember,
}

/// What follows a login that the server accepted.
#[derive(Clone, Debug, PartialEq, Eq)]
pub struct Authenticated {
    /// The session to put in place of the one before.
    pub token: AuthToken,
    /// After how many seconds the session stops being valid, if it does.
    pub refresh_after: Option<u64>,
    /// The page to go to.
    pub redirect: String,
}

/// The line of text in the field `id`; the empty line where there is no
/// such field or it holds a list.
pub open spec fn line_of(store: FormDataView, id: Seq<char>) -> Seq<char> {
    match store.value_of(id) {
        Some(ValueView::Value(s)) => s,
        _ => Seq::empty(),
    }
}

/// The page an administrator lands on.
pub open spec fn admin_page() -> Seq<char> {
    "/manage/directory/accounts"@
}

/// The page any other account lands on.
pub open spec fn account_page() -> Seq<char> {
    "/account/crypto"@
}

/// Whether the box "remember me" starts ticked: it does where a login is
/// remembered.
pub fn remembers(saved: &Option<SavedSession>) -> (r: bool)
    ensures
        r == (*saved is Some),
{
    saved.is_some()
}

/// The login form as the page opens it: the remembered host and login in
/// place of the defaults, or empty lines where nothing is remembered.
/// Nothing is validated.
pub fn login_form(schemas: &Schemas, saved: Option<SavedSession>) -> (r: FormData)
    requires
        schemas.wf(),
        schemas.contains("login"@),
    ensures
        r.wf(),
        r@ == FormDataView::initial(schemas.schema("login"@)).with_value(
            "base-url"@,
            ValueView::Value(
                match saved {
                    Some(s) => s.base_url@,
                    None => Seq::empty(),
                },
            ),
        ).with_value(
            "login"@,
            ValueView::Value(
                match saved {
                    Some(s) => s.login@,
                    None => Seq::empty(),
                },
            ),
        ),
{
    let (login, base_url) = match saved {
        Some(session) => (session.login, session.base_url),
        None => (String::new(), String::new()),
    };
    schemas.build_form("login").with_value("base-url", base_url).with_value("login", login)
}

/// The line in the field `id`, or the empty line.
fn line(data: &FormData, id: &str) -> (r: String)
    requires
        data.wf(),
    ensures
        r@ == line_of(data@, id@),
{
    match data.value(id) {
        Some(s) => s,
        None => String::new(),
    }
}

/// Whether the page asks for the host: it does where the address of the
/// page says `remote`, and where the form has a host already.
pub fn has_remote(remote_in_query: bool, data: &FormData) -> (r: bool)
    requires
        data.wf(),
    ensures
        r == (remote_in_query || line_of(data@, "base-url"@).len() > 0),
{
    remote_in_query || !line(data, "base-url").as_str().is_empty()
}

/// The user pressed "sign in". The form is validated; where it does not
/// pass, nothing is to be done and the result is `None`. Where it passes,
/// the result is the request to the server, made of the normalised values,
/// and what to remember: the login and the host where `remember_me` is
/// set, nothing where it is not.
pub fn submit(data: &mut FormData, remember_me: bool) -> (r: Option<LoginRequest>)
    requires
        old(data).wf(),
    ensures
        final(data).wf(),
        final(data)@ == old(data)@.validated(),
        r is Some <==> final(data)@.passed(),
        r matches Some(request) ==> {
            &&& request.username@ == line_of(final(data)@, "login"@)
            &&& request.password@ == line_of(final(data)@, "password"@)
            &&& request.base_url@ == line_of(final(data)@, "base-url"@)
            &&& match request.remember {
                Remember::Save(session) => remember_me && session.login@ == request.username@
                    && session.base_url@ == request.base_url@,
                Remember::Forget => !remember_me,
            }
        },
{
    if data.validate_form() {
        let username = line(data, "login");
        let password = line(data, "password");
        let base_url = line(data, "base-url");
        let remember = if remember_me {
            Remember::Save(SavedSession { login: username.clone(), base_url: base_url.clone() })
        } else {
            Remember::Forget
        };
        Some(LoginRequest { username, password, base_url, remember })
    } else {
        None
    }
}

/// The server accepted the login of `username` on `base_url`. The new
/// session is valid and holds the tokens of the grant, an empty refresh
/// token where the grant has none. It is to be refreshed when the access
/// token expires, if the grant says when and gives a token to refresh it
/// with. An administrator goes on to the accounts, anybody else to the
/// settings of the own account.
pub fn authenticated(username: String, base_url: String, grant: OAuthGrant, is_admin: bool) -> (r:
    Authenticated)
    ensures
        r.token.access_token@ == grant.access_token@,
        r.token.refresh_token@ == (match grant.refresh_token {
            Some(t) => t@,
            None => Seq::empty(),
        }),
        r.token.base_url@ == base_url@,
        r.token.username@ == username@,
        r.token.is_valid,
        r.token.is_admin == is_admin,
        r.refresh_after == (if grant.expires_in > 0 && r.token.refresh_token@.len() > 0 {
            Some(grant.expires_in)
        } else {
            None
        }),
        r.redirect@ == (if is_admin {
            admin_page()
        } else {
            account_page()
        }),
{
    let refresh_token = match grant.refresh_token {
        Some(t) => t,
        None => String::new(),
    };
    let refresh_after = if grant.expires_in > 0 && !refresh_token.as_str().is_empty() {
        Some(grant.expires_in)
    } else {
        None
    };
    let redirect = if is_admin {
        "/manage/directory/accounts"
    } else {
        "/account/crypto"
    };
    Authenticated {
        token: AuthToken {
            access_token: grant.access_token,
            refresh_token,
            base_url,
            username,
            is_valid: true,
            is_admin,
        },
        refresh_after,
        redirect: redirect.to_owned(),
    }
}

/// The access token ran out: the session is the same, but not valid any
/// more.
pub fn expired(token: AuthToken) -> (r: AuthToken)
    ensures
        !r.is_valid,
        r.access_token@ == token.access_token@,
        r.refresh_token@ == token.refresh_token@,
        r.base_url@ == token.base_url@,
        r.username@ == token.username@,
        r.is_admin == token.is_admin,
{
    let mut token = token;
    token.is_valid = false;
    token
}

} // verus!
