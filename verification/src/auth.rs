//! Authorization that an agent asks for or hands over.
//!
//! These records are open: a member that a record does not name is kept, in
//! order, among its additional properties and written back after the named
//! fields, so that what a server adds is not lost.

use vstd::prelude::*;
use crate::error::{lift, DecodeError};
use crate::json::{find, Json, JsonView, Members};
use crate::record::{
    each, field, get_opt_flag, get_opt_text, get_text, get_texts, keyed, maybe, opt, opt_flag,
    opt_flag_json, opt_text, opt_text_json, push_json, push_members, push_opt_flag,
    push_opt_json, push_opt_text, push_text, push_texts, put, put_opt, read_each, req, req_text,
    req_texts, rest, rest_of, same_text, texts_json, write_each, all_known, free_of,
    group_members, lemma_each_reads_back, lemma_find_unknown, lemma_rest_of_written,
    lemma_texts_read_back,
};

verus! {

/// How a credential is to be presented.
#[derive(Clone, Debug, PartialEq)]
pub struct AuthScheme {
    /// The kind of scheme, `type` on the wire.
    pub auth_type: String,
    pub description: String,
    /// Where the credential goes, `in` on the wire.
    pub in_: Option<String>,
    pub name: String,
    pub additional_props: Vec<(String, Json)>,
}

/// The model of [`AuthScheme`].
pub struct AuthSchemeView {
    pub auth_type: Seq<char>,
    pub description: Seq<char>,
    pub in_: Option<Seq<char>>,
    pub name: Seq<char>,
    pub additional_props: Members,
}

impl View for AuthScheme {
    type V = AuthSchemeView;

    open spec fn view(&self) -> AuthSchemeView {
        AuthSchemeView {
            auth_type: self.auth_type@,
            description: self.description@,
            in_: self.in_.deep_view(),
            name: self.name@,
            additional_props: self.additional_props.deep_view(),
        }
    }
}

impl DeepView for AuthScheme {
    type V = AuthSchemeView;

    open spec fn deep_view(&self) -> AuthSchemeView {
        self@
    }
}

impl AuthSchemeView {
    /// The record that an object's members hold. The fields are read in
    /// the order in which the record lists them, and the first that
    /// cannot be read fails the record with its error.
    pub open spec fn read_members(m: Members) -> Result<AuthSchemeView, DecodeError> {
        let auth_type = req_text(m, "type"@, "type"@);
        let description = req_text(m, "description"@, "description"@);
        let in_ = opt_text(m, "in"@, "in"@);
        let name = req_text(m, "name"@, "name"@);
        let additional_props = rest(m, seq!["type"@, "description"@, "in"@, "name"@]);
        if auth_type is Err {
            Err(auth_type->Err_0)
        } else if description is Err {
            Err(description->Err_0)
        } else if in_ is Err {
            Err(in_->Err_0)
        } else if name is Err {
            Err(name->Err_0)
        } else {
            Ok(
                AuthSchemeView {
                    auth_type: auth_type->Ok_0,
                    description: description->Ok_0,
                    in_: in_->Ok_0,
                    name: name->Ok_0,
                    additional_props,
                },
            )
        }
    }

    /// The record that a wire value holds.
    pub open spec fn read(j: JsonView) -> Result<AuthSchemeView, DecodeError> {
        match j {
            JsonView::Object(m) => AuthSchemeView::read_members(m),
            _ => Err(DecodeError::NotAnObject),
        }
    }

    /// The members of the wire form, in the order of the fields. A field
    /// that holds nothing is left out.
    pub open spec fn wire_members(self) -> Members {
        Seq::<(Seq<char>, JsonView)>::empty()
            + put("type"@, JsonView::Str(self.auth_type))
            + put("description"@, JsonView::Str(self.description))
            + put_opt("in"@, opt_text_json(self.in_))
            + put("name"@, JsonView::Str(self.name))
            + self.additional_props
    }

    /// The wire form of the record.
    pub open spec fn wire(self) -> JsonView {
        JsonView::Object(self.wire_members())
    }
}

impl AuthScheme {
    /// Reads a wire value as this record.
    pub fn decode(j: &Json) -> (r: Result<AuthScheme, DecodeError>)
        ensures
            lift(r) == AuthSchemeView::read(j@),
    {
        let m = match j.as_object() {
            Some(m) => m,
            None => {
                return Err(DecodeError::NotAnObject);
            },
        };
        let auth_type = get_text(m, "type", "type")?;
        let description = get_text(m, "description", "description")?;
        let in_ = get_opt_text(m, "in", "in")?;
        let name = get_text(m, "name", "name")?;
        let known: Vec<&str> = vec!["type", "description", "in", "name"];
        assert(known.deep_view() =~= seq!["type"@, "description"@, "in"@, "name"@]);
        let additional_props = rest_of(m, &known);
        Ok(AuthScheme { auth_type, description, in_, name, additional_props })
    }

    /// Writes this record in its wire form.
    pub fn encode(&self) -> (r: Json)
        ensures
            r@ == self@.wire(),
    {
        let mut m: Vec<(String, Json)> = Vec::new();
        assert(m.deep_view() =~= Seq::<(Seq<char>, JsonView)>::empty());
        push_text(&mut m, "type", &self.auth_type);
        push_text(&mut m, "description", &self.description);
        push_opt_text(&mut m, "in", &self.in_);
        push_text(&mut m, "name", &self.name);
        push_members(&mut m, &self.additional_props);
        Json::object(m)
    }
}

impl AuthSchemeView {
    /// Whether the record is one that its wire form gives back:
    /// no additional member stands under the name of a field.
    pub open spec fn canonical(self) -> bool {
        &&& free_of(self.additional_props, seq!["type"@, "description"@, "in"@, "name"@])
    }
}

/// A canonical [`AuthScheme`] is read back from its wire form.
pub proof fn lemma_auth_scheme_reads_back(record: AuthSchemeView)
    requires
        record.canonical(),
    ensures
        AuthSchemeView::read(record.wire()) == Ok::<AuthSchemeView, DecodeError>(record),
{
    broadcast use group_members;
    reveal_strlit("type");
    reveal_strlit("description");
    reveal_strlit("in");
    reveal_strlit("name");
    assert("type"@[0] == 't');
    assert("description"@[0] == 'd');
    assert("in"@[0] == 'i');
    assert("name"@[0] == 'n');
    let m = record.wire_members();
    let known = seq!["type"@, "description"@, "in"@, "name"@];
    assert(known[0] == "type"@);
    assert(known[1] == "description"@);
    assert(known[2] == "in"@);
    assert(known[3] == "name"@);
    lemma_find_unknown(record.additional_props, known, "type"@, 0);
    lemma_find_unknown(record.additional_props, known, "description"@, 0);
    lemma_find_unknown(record.additional_props, known, "in"@, 0);
    lemma_find_unknown(record.additional_props, known, "name"@, 0);
    let named = Seq::<(Seq<char>, JsonView)>::empty()
        + put("type"@, JsonView::Str(record.auth_type))
        + put("description"@, JsonView::Str(record.description))
        + put_opt("in"@, opt_text_json(record.in_))
        + put("name"@, JsonView::Str(record.name));
    assert(all_known(named, known));
    lemma_rest_of_written(named, record.additional_props, known);
    assert(rest(m, known) == record.additional_props);
    assert(find(m, "type"@) == Some(JsonView::Str(record.auth_type)));
    let auth_type = req_text(m, "type"@, "type"@);
    assert(auth_type == Ok::<Seq<char>, DecodeError>(record.auth_type));
    assert(find(m, "description"@) == Some(JsonView::Str(record.description)));
    let description = req_text(m, "description"@, "description"@);
    assert(description == Ok::<Seq<char>, DecodeError>(record.description));
    assert(find(m, "in"@) == opt_text_json(record.in_));
    let in_ = opt_text(m, "in"@, "in"@);
    assert(in_ == Ok::<Option<Seq<char>>, DecodeError>(record.in_));
    assert(find(m, "name"@) == Some(JsonView::Str(record.name)));
    let name = req_text(m, "name"@, "name"@);
    assert(name == Ok::<Seq<char>, DecodeError>(record.name));
    assert(AuthSchemeView::read_members(m) == Ok::<AuthSchemeView, DecodeError>(record));
}

/// What an HTTP scheme presents.
#[derive(Clone, Debug, PartialEq)]
pub struct HttpCredentials {
    pub username: Option<String>,
    pub password: Option<String>,
    pub token: Option<String>,
    pub additional_props: Vec<(String, Json)>,
}

/// The model of [`HttpCredentials`].
pub struct HttpCredentialsView {
    pub username: Option<Seq<char>>,
    pub password: Option<Seq<char>>,
    pub token: Option<Seq<char>>,
    pub additional_props: Members,
}

impl View for HttpCredentials {
    type V = HttpCredentialsView;

    open spec fn view(&self) -> HttpCredentialsView {
        HttpCredentialsView {
            username: self.username.deep_view(),
            password: self.password.deep_view(),
            token: self.token.deep_view(),
            additional_props: self.additional_props.deep_view(),
        }
    }
}

impl DeepView for HttpCredentials {
    type V = HttpCredentialsView;

    open spec fn deep_view(&self) -> HttpCredentialsView {
        self@
    }
}

impl HttpCredentialsView {
    /// The record that an object's members hold. The fields are read in
    /// the order in which the record lists them, and the first that
    /// cannot be read fails the record with its error.
    pub open spec fn read_members(m: Members) -> Result<HttpCredentialsView, DecodeError> {
        let username = opt_text(m, "username"@, "username"@);
        let password = opt_text(m, "password"@, "password"@);
        let token = opt_text(m, "token"@, "token"@);
        let additional_props = rest(m, seq!["username"@, "password"@, "token"@]);
        if username is Err {
            Err(username->Err_0)
        } else if password is Err {
            Err(password->Err_0)
        } else if token is Err {
            Err(token->Err_0)
        } else {
            Ok(
                HttpCredentialsView {
                    username: username->Ok_0,
                    password: password->Ok_0,
                    token: token->Ok_0,
                    additional_props,
                },
            )
        }
    }

    /// The record that a wire value holds.
    pub open spec fn read(j: JsonView) -> Result<HttpCredentialsView, DecodeError> {
        match j {
            JsonView::Object(m) => HttpCredentialsView::read_members(m),
            _ => Err(DecodeError::NotAnObject),
        }
    }

    /// The members of the wire form, in the order of the fields. A field
    /// that holds nothing is left out.
    pub open spec fn wire_members(self) -> Members {
        Seq::<(Seq<char>, JsonView)>::empty()
            + put_opt("username"@, opt_text_json(self.username))
            + put_opt("password"@, opt_text_json(self.password))
            + put_opt("token"@, opt_text_json(self.token))
            + self.additional_props
    }

    /// The wire form of the record.
    pub open spec fn wire(self) -> JsonView {
        JsonView::Object(self.wire_members())
    }
}

impl HttpCredentials {
    /// Reads a wire value as this record.
    pub fn decode(j: &Json) -> (r: Result<HttpCredentials, DecodeError>)
        ensures
            lift(r) == HttpCredentialsView::read(j@),
    {
        let m = match j.as_object() {
            Some(m) => m,
            None => {
                return Err(DecodeError::NotAnObject);
            },
        };
        let username = get_opt_text(m, "username", "username")?;
        let password = get_opt_text(m, "password", "password")?;
        let token = get_opt_text(m, "token", "token")?;
        let known: Vec<&str> = vec!["username", "password", "token"];
        assert(known.deep_view() =~= seq!["username"@, "password"@, "token"@]);
        let additional_props = rest_of(m, &known);
        Ok(HttpCredentials { username, password, token, additional_props })
    }

    /// Writes this record in its wire form.
    pub fn encode(&self) -> (r: Json)
        ensures
            r@ == self@.wire(),
    {
        let mut m: Vec<(String, Json)> = Vec::new();
        assert(m.deep_view() =~= Seq::<(Seq<char>, JsonView)>::empty());
        push_opt_text(&mut m, "username", &self.username);
        push_opt_text(&mut m, "password", &self.password);
        push_opt_text(&mut m, "token", &self.token);
        push_members(&mut m, &self.additional_props);
        Json::object(m)
    }
}

impl HttpCredentialsView {
    /// Whether the record is one that its wire form gives back:
    /// no additional member stands under the name of a field.
    pub open spec fn canonical(self) -> bool {
        &&& free_of(self.additional_props, seq!["username"@, "password"@, "token"@])
    }
}

/// A canonical [`HttpCredentials`] is read back from its wire form.
pub proof fn lemma_http_credentials_reads_back(record: HttpCredentialsView)
    requires
        record.canonical(),
    ensures
        HttpCredentialsView::read(record.wire()) == Ok::<HttpCredentialsView, DecodeError>(record),
{
    broadcast use group_members;
    reveal_strlit("username");
    reveal_strlit("password");
    reveal_strlit("token");
    assert("username"@[0] == 'u');
    assert("password"@[0] == 'p');
    assert("token"@[0] == 't');
    let m = record.wire_members();
    let known = seq!["username"@, "password"@, "token"@];
    assert(known[0] == "username"@);
    assert(known[1] == "password"@);
    assert(known[2] == "token"@);
    lemma_find_unknown(record.additional_props, known, "username"@, 0);
    lemma_find_unknown(record.additional_props, known, "password"@, 0);
    lemma_find_unknown(record.additional_props, known, "token"@, 0);
    let named = Seq::<(Seq<char>, JsonView)>::empty()
        + put_opt("username"@, opt_text_json(record.username))
        + put_opt("password"@, opt_text_json(record.password))
        + put_opt("token"@, opt_text_json(record.token));
    assert(all_known(named, known));
    lemma_rest_of_written(named, record.additional_props, known);
    assert(rest(m, known) == record.additional_props);
    assert(find(m, "username"@) == opt_text_json(record.username));
    let username = opt_text(m, "username"@, "username"@);
    assert(username == Ok::<Option<Seq<char>>, DecodeError>(record.username));
    assert(find(m, "password"@) == opt_text_json(record.password));
    let password = opt_text(m, "password"@, "password"@);
    assert(password == Ok::<Option<Seq<char>>, DecodeError>(record.password));
    assert(find(m, "token"@) == opt_text_json(record.token));
    let token = opt_text(m, "token"@, "token"@);
    assert(token == Ok::<Option<Seq<char>>, DecodeError>(record.token));
    assert(HttpCredentialsView::read_members(m) == Ok::<HttpCredentialsView, DecodeError>(record));
}

/// An HTTP credential.
#[derive(Clone, Debug, PartialEq)]
pub struct HttpAuth {
    pub scheme: Option<String>,
    pub credentials: Option<HttpCredentials>,
    pub additional_props: Vec<(String, Json)>,
}

/// The model of [`HttpAuth`].
pub struct HttpAuthView {
    pub scheme: Option<Seq<char>>,
    pub credentials: Option<HttpCredentialsView>,
    pub additional_props: Members,
}

impl View for HttpAuth {
    type V = HttpAuthView;

    open spec fn view(&self) -> HttpAuthView {
        HttpAuthView {
            scheme: self.scheme.deep_view(),
            credentials: self.credentials.deep_view(),
            additional_props: self.additional_props.deep_view(),
        }
    }
}

impl DeepView for HttpAuth {
    type V = HttpAuthView;

    open spec fn deep_view(&self) -> HttpAuthView {
        self@
    }
}

impl HttpAuthView {
    /// The record that an object's members hold. The fields are read in
    /// the order in which the record lists them, and the first that
    /// cannot be read fails the record with its error.
    pub open spec fn read_members(m: Members) -> Result<HttpAuthView, DecodeError> {
        let scheme = opt_text(m, "scheme"@, "scheme"@);
        let credentials = opt(
            m,
            "credentials"@,
            "credentials"@,
            |x: JsonView| HttpCredentialsView::read(x),
        );
        let additional_props = rest(m, seq!["scheme"@, "credentials"@]);
        if scheme is Err {
            Err(scheme->Err_0)
        } else if credentials is Err {
            Err(credentials->Err_0)
        } else {
            Ok(
                HttpAuthView {
                    scheme: scheme->Ok_0,
                    credentials: credentials->Ok_0,
                    additional_props,
                },
            )
        }
    }

    /// The record that a wire value holds.
    pub open spec fn read(j: JsonView) -> Result<HttpAuthView, DecodeError> {
        match j {
            JsonView::Object(m) => HttpAuthView::read_members(m),
            _ => Err(DecodeError::NotAnObject),
        }
    }

    /// The members of the wire form, in the order of the fields. A field
    /// that holds nothing is left out.
    pub open spec fn wire_members(self) -> Members {
        Seq::<(Seq<char>, JsonView)>::empty()
            + put_opt("scheme"@, opt_text_json(self.scheme))
            + put_opt(
                "credentials"@,
                match self.credentials {
                    Some(t) => Some(t.wire()),
                    None => None,
                },
            )
            + self.additional_props
    }

    /// The wire form of the record.
    pub open spec fn wire(self) -> JsonView {
        JsonView::Object(self.wire_members())
    }
}

impl HttpAuth {
    /// Reads a wire value as this record.
    pub fn decode(j: &Json) -> (r: Result<HttpAuth, DecodeError>)
        ensures
            lift(r) == HttpAuthView::read(j@),
    {
        let m = match j.as_object() {
            Some(m) => m,
            None => {
                return Err(DecodeError::NotAnObject);
            },
        };
        let scheme = get_opt_text(m, "scheme", "scheme")?;
        let credentials = match maybe(m, "credentials", "credentials") {
            Some(v) => Some(HttpCredentials::decode(v)?),
            None => None,
        };
        let known: Vec<&str> = vec!["scheme", "credentials"];
        assert(known.deep_view() =~= seq!["scheme"@, "credentials"@]);
        let additional_props = rest_of(m, &known);
        Ok(HttpAuth { scheme, credentials, additional_props })
    }

    /// Writes this record in its wire form.
    pub fn encode(&self) -> (r: Json)
        ensures
            r@ == self@.wire(),
    {
        let mut m: Vec<(String, Json)> = Vec::new();
        assert(m.deep_view() =~= Seq::<(Seq<char>, JsonView)>::empty());
        push_opt_text(&mut m, "scheme", &self.scheme);
        push_opt_json(
            &mut m,
            "credentials",
            match &self.credentials {
                Some(t) => Some(t.encode()),
                None => None,
            },
        );
        push_members(&mut m, &self.additional_props);
        Json::object(m)
    }
}

impl HttpAuthView {
    /// Whether the record is one that its wire form gives back:
    /// no additional member stands under the name of a field; the records it holds are canonical.
    pub open spec fn canonical(self) -> bool {
        &&& (self.credentials is Some ==> self.credentials->0.canonical())
        &&& free_of(self.additional_props, seq!["scheme"@, "credentials"@])
    }
}

/// A canonical [`HttpAuth`] is read back from its wire form.
pub proof fn lemma_http_auth_reads_back(record: HttpAuthView)
    requires
        record.canonical(),
    ensures
        HttpAuthView::read(record.wire()) == Ok::<HttpAuthView, DecodeError>(record),
{
    broadcast use group_members;
    reveal_strlit("scheme");
    reveal_strlit("credentials");
    assert("scheme"@[0] == 's');
    assert("credentials"@[0] == 'c');
    let m = record.wire_members();
    let known = seq!["scheme"@, "credentials"@];
    assert(known[0] == "scheme"@);
    assert(known[1] == "credentials"@);
    lemma_find_unknown(record.additional_props, known, "scheme"@, 0);
    lemma_find_unknown(record.additional_props, known, "credentials"@, 0);
    let named = Seq::<(Seq<char>, JsonView)>::empty()
        + put_opt("scheme"@, opt_text_json(record.scheme))
        + put_opt(
            "credentials"@,
            match record.credentials { Some(t) => Some(t.wire()), None => None, },
        );
    assert(all_known(named, known));
    lemma_rest_of_written(named, record.additional_props, known);
    assert(rest(m, known) == record.additional_props);
    assert(find(m, "scheme"@) == opt_text_json(record.scheme));
    let scheme = opt_text(m, "scheme"@, "scheme"@);
    assert(scheme == Ok::<Option<Seq<char>>, DecodeError>(record.scheme));
    assert(
        find(m, "credentials"@) == (
            match record.credentials { Some(t) => Some(t.wire()), None => None::<JsonView> }
        )
    );
    if record.credentials is Some {
        lemma_http_credentials_reads_back(record.credentials->0);
    }
    let credentials = opt(
        m,
        "credentials"@,
        "credentials"@,
        |x: JsonView| HttpCredentialsView::read(x),
    );
    assert(credentials == Ok::<Option<HttpCredentialsView>, DecodeError>(record.credentials));
    assert(HttpAuthView::read_members(m) == Ok::<HttpAuthView, DecodeError>(record));
}

/// The key material of a service account.
#[derive(Clone, Debug, PartialEq)]
pub struct ServiceAccountCredential {
    /// The kind of credential, `type` on the wire.
    pub cred_type: String,
    pub project_id: String,
    pub private_key_id: String,
    pub private_key: String,
    pub client_email: String,
    pub client_id: String,
    pub auth_uri: String,
    pub token_uri: String,
    pub auth_provider_x509_cert_url: String,
    pub client_x509_cert_url: String,
    pub universe_domain: String,
    pub additional_props: Vec<(String, Json)>,
}

/// The model of [`ServiceAccountCredential`].
pub struct ServiceAccountCredentialView {
    pub cred_type: Seq<char>,
    pub project_id: Seq<char>,
    pub private_key_id: Seq<char>,
    pub private_key: Seq<char>,
    pub client_email: Seq<char>,
    pub client_id: Seq<char>,
    pub auth_uri: Seq<char>,
    pub token_uri: Seq<char>,
    pub auth_provider_x509_cert_url: Seq<char>,
    pub client_x509_cert_url: Seq<char>,
    pub universe_domain: Seq<char>,
    pub additional_props: Members,
}

impl View for ServiceAccountCredential {
    type V = ServiceAccountCredentialView;

    open spec fn view(&self) -> ServiceAccountCredentialView {
        ServiceAccountCredentialView {
            cred_type: self.cred_type@,
            project_id: self.project_id@,
            private_key_id: self.private_key_id@,
            private_key: self.private_key@,
            client_email: self.client_email@,
            client_id: self.client_id@,
            auth_uri: self.auth_uri@,
            token_uri: self.token_uri@,
            auth_provider_x509_cert_url: self.auth_provider_x509_cert_url@,
            client_x509_cert_url: self.client_x509_cert_url@,
            universe_domain: self.universe_domain@,
            additional_props: self.additional_props.deep_view(),
        }
    }
}

impl DeepView for ServiceAccountCredential {
    type V = ServiceAccountCredentialView;

    open spec fn deep_view(&self) -> ServiceAccountCredentialView {
        self@
    }
}

impl ServiceAccountCredentialView {
    /// The record that an object's members hold. The fields are read in
    /// the order in which the record lists them, and the first that
    /// cannot be read fails the record with its error.
    pub open spec fn read_members(m: Members) -> Result<ServiceAccountCredentialView, DecodeError> {
        let cred_type = req_text(m, "type"@, "type"@);
        let project_id = req_text(m, "projectId"@, "project_id"@);
        let private_key_id = req_text(m, "privateKeyId"@, "private_key_id"@);
        let private_key = req_text(m, "privateKey"@, "private_key"@);
        let client_email = req_text(m, "clientEmail"@, "client_email"@);
        let client_id = req_text(m, "clientId"@, "client_id"@);
        let auth_uri = req_text(m, "authUri"@, "auth_uri"@);
        let token_uri = req_text(m, "tokenUri"@, "token_uri"@);
        let auth_provider_x509_cert_url = req_text(
            m,
            "authProviderX509CertUrl"@,
            "auth_provider_x509_cert_url"@,
        );
        let client_x509_cert_url = req_text(m, "clientX509CertUrl"@, "client_x509_cert_url"@);
        let universe_domain = req_text(m, "universeDomain"@, "universe_domain"@);
        let additional_props = rest(
            m,
            seq![
                "type"@,
                "projectId"@,
                "project_id"@,
                "privateKeyId"@,
                "private_key_id"@,
                "privateKey"@,
                "private_key"@,
                "clientEmail"@,
                "client_email"@,
                "clientId"@,
                "client_id"@,
                "authUri"@,
                "auth_uri"@,
                "tokenUri"@,
                "token_uri"@,
                "authProviderX509CertUrl"@,
                "auth_provider_x509_cert_url"@,
                "clientX509CertUrl"@,
                "client_x509_cert_url"@,
                "universeDomain"@,
                "universe_domain"@,
            ],
        );
        if cred_type is Err {
            Err(cred_type->Err_0)
        } else if project_id is Err {
            Err(project_id->Err_0)
        } else if private_key_id is Err {
            Err(private_key_id->Err_0)
        } else if private_key is Err {
            Err(private_key->Err_0)
        } else if client_email is Err {
            Err(client_email->Err_0)
        } else if client_id is Err {
            Err(client_id->Err_0)
        } else if auth_uri is Err {
            Err(auth_uri->Err_0)
        } else if token_uri is Err {
            Err(token_uri->Err_0)
        } else if auth_provider_x509_cert_url is Err {
            Err(auth_provider_x509_cert_url->Err_0)
        } else if client_x509_cert_url is Err {
            Err(client_x509_cert_url->Err_0)
        } else if universe_domain is Err {
            Err(universe_domain->Err_0)
        } else {
            Ok(
                ServiceAccountCredentialView {
                    cred_type: cred_type->Ok_0,
                    project_id: project_id->Ok_0,
                    private_key_id: private_key_id->Ok_0,
                    private_key: private_key->Ok_0,
                    client_email: client_email->Ok_0,
                    client_id: client_id->Ok_0,
                    auth_uri: auth_uri->Ok_0,
                    token_uri: token_uri->Ok_0,
                    auth_provider_x509_cert_url: auth_provider_x509_cert_url->Ok_0,
                    client_x509_cert_url: client_x509_cert_url->Ok_0,
                    universe_domain: universe_domain->Ok_0,
                    additional_props,
                },
            )
        }
    }

    /// The record that a wire value holds.
    pub open spec fn read(j: JsonView) -> Result<ServiceAccountCredentialView, DecodeError> {
        match j {
            JsonView::Object(m) => ServiceAccountCredentialView::read_members(m),
            _ => Err(DecodeError::NotAnObject),
        }
    }

    /// The members of the wire form, in the order of the fields. A field
    /// that holds nothing is left out.
    pub open spec fn wire_members(self) -> Members {
        Seq::<(Seq<char>, JsonView)>::empty()
            + put("type"@, JsonView::Str(self.cred_type))
            + put("projectId"@, JsonView::Str(self.project_id))
            + put("privateKeyId"@, JsonView::Str(self.private_key_id))
            + put("privateKey"@, JsonView::Str(self.private_key))
            + put("clientEmail"@, JsonView::Str(self.client_email))
            + put("clientId"@, JsonView::Str(self.client_id))
            + put("authUri"@, JsonView::Str(self.auth_uri))
            + put("tokenUri"@, JsonView::Str(self.token_uri))
            + put("authProviderX509CertUrl"@, JsonView::Str(self.auth_provider_x509_cert_url))
            + put("clientX509CertUrl"@, JsonView::Str(self.client_x509_cert_url))
            + put("universeDomain"@, JsonView::Str(self.universe_domain))
            + self.additional_props
    }

    /// The wire form of the record.
    pub open spec fn wire(self) -> JsonView {
        JsonView::Object(self.wire_members())
    }
}

impl ServiceAccountCredential {
    /// Reads a wire value as this record.
    pub fn decode(j: &Json) -> (r: Result<ServiceAccountCredential, DecodeError>)
        ensures
            lift(r) == ServiceAccountCredentialView::read(j@),
    {
        let m = match j.as_object() {
            Some(m) => m,
            None => {
                return Err(DecodeError::NotAnObject);
            },
        };
        let cred_type = get_text(m, "type", "type")?;
        let project_id = get_text(m, "projectId", "project_id")?;
        let private_key_id = get_text(m, "privateKeyId", "private_key_id")?;
        let private_key = get_text(m, "privateKey", "private_key")?;
        let client_email = get_text(m, "clientEmail", "client_email")?;
        let client_id = get_text(m, "clientId", "client_id")?;
        let auth_uri = get_text(m, "authUri", "auth_uri")?;
        let token_uri = get_text(m, "tokenUri", "token_uri")?;
        let auth_provider_x509_cert_url = get_text(
            m,
            "authProviderX509CertUrl",
            "auth_provider_x509_cert_url",
        )?;
        let client_x509_cert_url = get_text(m, "clientX509CertUrl", "client_x509_cert_url")?;
        let universe_domain = get_text(m, "universeDomain", "universe_domain")?;
        let known: Vec<&str> = vec![
            "type",
            "projectId",
            "project_id",
            "privateKeyId",
            "private_key_id",
            "privateKey",
            "private_key",
            "clientEmail",
            "client_email",
            "clientId",
            "client_id",
            "authUri",
            "auth_uri",
            "tokenUri",
            "token_uri",
            "authProviderX509CertUrl",
            "auth_provider_x509_cert_url",
            "clientX509CertUrl",
            "client_x509_cert_url",
            "universeDomain",
            "universe_domain",
        ];
        assert(
            known.deep_view() =~= seq![
                "type"@,
                "projectId"@,
                "project_id"@,
                "privateKeyId"@,
                "private_key_id"@,
                "privateKey"@,
                "private_key"@,
                "clientEmail"@,
                "client_email"@,
                "clientId"@,
                "client_id"@,
                "authUri"@,
                "auth_uri"@,
                "tokenUri"@,
                "token_uri"@,
                "authProviderX509CertUrl"@,
                "auth_provider_x509_cert_url"@,
                "clientX509CertUrl"@,
                "client_x509_cert_url"@,
                "universeDomain"@,
                "universe_domain"@,
            ]
        );
        let additional_props = rest_of(m, &known);
        Ok(
            ServiceAccountCredential {
                cred_type,
                project_id,
                private_key_id,
                private_key,
                client_email,
                client_id,
                auth_uri,
                token_uri,
                auth_provider_x509_cert_url,
                client_x509_cert_url,
                universe_domain,
                additional_props,
            },
        )
    }

    /// Writes this record in its wire form.
    pub fn encode(&self) -> (r: Json)
        ensures
            r@ == self@.wire(),
    {
        let mut m: Vec<(String, Json)> = Vec::new();
        assert(m.deep_view() =~= Seq::<(Seq<char>, JsonView)>::empty());
        push_text(&mut m, "type", &self.cred_type);
        push_text(&mut m, "projectId", &self.project_id);
        push_text(&mut m, "privateKeyId", &self.private_key_id);
        push_text(&mut m, "privateKey", &self.private_key);
        push_text(&mut m, "clientEmail", &self.client_email);
        push_text(&mut m, "clientId", &self.client_id);
        push_text(&mut m, "authUri", &self.auth_uri);
        push_text(&mut m, "tokenUri", &self.token_uri);
        push_text(&mut m, "authProviderX509CertUrl", &self.auth_provider_x509_cert_url);
        push_text(&mut m, "clientX509CertUrl", &self.client_x509_cert_url);
        push_text(&mut m, "universeDomain", &self.universe_domain);
        push_members(&mut m, &self.additional_props);
        Json::object(m)
    }
}

impl ServiceAccountCredentialView {
    /// Whether the record is one that its wire form gives back:
    /// no additional member stands under the name of a field.
    pub open spec fn canonical(self) -> bool {
        &&& free_of(
            self.additional_props,
            seq![
                "type"@,
                "projectId"@,
                "project_id"@,
                "privateKeyId"@,
                "private_key_id"@,
                "privateKey"@,
                "private_key"@,
                "clientEmail"@,
                "client_email"@,
                "clientId"@,
                "client_id"@,
                "authUri"@,
                "auth_uri"@,
                "tokenUri"@,
                "token_uri"@,
                "authProviderX509CertUrl"@,
                "auth_provider_x509_cert_url"@,
                "clientX509CertUrl"@,
                "client_x509_cert_url"@,
                "universeDomain"@,
                "universe_domain"@,
            ],
        )
    }
}

/// A canonical [`ServiceAccountCredential`] is read back from its wire form.
pub proof fn lemma_service_account_credential_reads_back(record: ServiceAccountCredentialView)
    requires
        record.canonical(),
    ensures
        ServiceAccountCredentialView::read(record.wire()) == Ok::<
            ServiceAccountCredentialView,
            DecodeError,
        >(record),
{
    broadcast use group_members;
    reveal_strlit("type");
    reveal_strlit("projectId");
    reveal_strlit("project_id");
    reveal_strlit("privateKeyId");
    reveal_strlit("private_key_id");
    reveal_strlit("privateKey");
    reveal_strlit("private_key");
    reveal_strlit("clientEmail");
    reveal_strlit("client_email");
    reveal_strlit("clientId");
    reveal_strlit("client_id");
    reveal_strlit("authUri");
    reveal_strlit("auth_uri");
    reveal_strlit("tokenUri");
    reveal_strlit("token_uri");
    reveal_strlit("authProviderX509CertUrl");
    reveal_strlit("auth_provider_x509_cert_url");
    reveal_strlit("clientX509CertUrl");
    reveal_strlit("client_x509_cert_url");
    reveal_strlit("universeDomain");
    reveal_strlit("universe_domain");
    assert("type"@[0] == 't');
    assert("projectId"@[0] == 'p');
    assert("privateKeyId"@[0] == 'p');
    assert("privateKey"@[0] == 'p');
    assert("clientEmail"@[0] == 'c');
    assert("clientId"@[0] == 'c');
    assert("authUri"@[0] == 'a');
    assert("type"@[1] == 'y');
    assert("tokenUri"@[1] == 'o');
    assert("authProviderX509CertUrl"@[0] == 'a');
    assert("clientX509CertUrl"@[0] == 'c');
    assert("universeDomain"@[0] == 'u');
    assert("projectId"@[2] == 'o');
    assert("privateKeyId"@[2] == 'i');
    assert("privateKey"@[2] == 'i');
    assert("tokenUri"@[0] == 't');
    assert("project_id"@[0] == 'p');
    assert("project_id"@[7] == '_');
    assert("projectId"@[7] == 'I');
    assert("project_id"@[2] == 'o');
    assert("privateKeyId"@.len() == 12);
    assert("privateKey"@.len() == 10);
    assert("private_key_id"@[0] == 'p');
    assert("private_key_id"@[2] == 'i');
    assert("private_key_id"@[7] == '_');
    assert("privateKeyId"@[7] == 'K');
    assert("privateKey"@[7] == 'K');
    assert("private_key"@[0] == 'p');
    assert("private_key"@[2] == 'i');
    assert("private_key"@[7] == '_');
    assert("clientEmail"@[6] == 'E');
    assert("clientId"@[6] == 'I');
    assert("clientX509CertUrl"@[6] == 'X');
    assert("client_email"@[0] == 'c');
    assert("client_email"@[6] == '_');
    assert("client_id"@[0] == 'c');
    assert("client_id"@[6] == '_');
    assert("authUri"@[4] == 'U');
    assert("authProviderX509CertUrl"@[4] == 'P');
    assert("auth_uri"@[0] == 'a');
    assert("auth_uri"@[4] == '_');
    assert("token_uri"@[1] == 'o');
    assert("token_uri"@[0] == 't');
    assert("token_uri"@[5] == '_');
    assert("tokenUri"@[5] == 'U');
    assert("auth_provider_x509_cert_url"@[0] == 'a');
    assert("auth_provider_x509_cert_url"@[4] == '_');
    assert("client_x509_cert_url"@[0] == 'c');
    assert("client_x509_cert_url"@[6] == '_');
    assert("universe_domain"@[0] == 'u');
    assert("universe_domain"@[8] == '_');
    assert("universeDomain"@[8] == 'D');
    let m = record.wire_members();
    let known = seq![
        "type"@,
        "projectId"@,
        "project_id"@,
        "privateKeyId"@,
        "private_key_id"@,
        "privateKey"@,
        "private_key"@,
        "clientEmail"@,
        "client_email"@,
        "clientId"@,
        "client_id"@,
        "authUri"@,
        "auth_uri"@,
        "tokenUri"@,
        "token_uri"@,
        "authProviderX509CertUrl"@,
        "auth_provider_x509_cert_url"@,
        "clientX509CertUrl"@,
        "client_x509_cert_url"@,
        "universeDomain"@,
        "universe_domain"@,
    ];
    assert(known[0] == "type"@);
    assert(known[1] == "projectId"@);
    assert(known[2] == "project_id"@);
    assert(known[3] == "privateKeyId"@);
    assert(known[4] == "private_key_id"@);
    assert(known[5] == "privateKey"@);
    assert(known[6] == "private_key"@);
    assert(known[7] == "clientEmail"@);
    assert(known[8] == "client_email"@);
    assert(known[9] == "clientId"@);
    assert(known[10] == "client_id"@);
    assert(known[11] == "authUri"@);
    assert(known[12] == "auth_uri"@);
    assert(known[13] == "tokenUri"@);
    assert(known[14] == "token_uri"@);
    assert(known[15] == "authProviderX509CertUrl"@);
    assert(known[16] == "auth_provider_x509_cert_url"@);
    assert(known[17] == "clientX509CertUrl"@);
    assert(known[18] == "client_x509_cert_url"@);
    assert(known[19] == "universeDomain"@);
    assert(known[20] == "universe_domain"@);
    lemma_find_unknown(record.additional_props, known, "type"@, 0);
    lemma_find_unknown(record.additional_props, known, "projectId"@, 0);
    lemma_find_unknown(record.additional_props, known, "project_id"@, 0);
    lemma_find_unknown(record.additional_props, known, "privateKeyId"@, 0);
    lemma_find_unknown(record.additional_props, known, "private_key_id"@, 0);
    lemma_find_unknown(record.additional_props, known, "privateKey"@, 0);
    lemma_find_unknown(record.additional_props, known, "private_key"@, 0);
    lemma_find_unknown(record.additional_props, known, "clientEmail"@, 0);
    lemma_find_unknown(record.additional_props, known, "client_email"@, 0);
    lemma_find_unknown(record.additional_props, known, "clientId"@, 0);
    lemma_find_unknown(record.additional_props, known, "client_id"@, 0);
    lemma_find_unknown(record.additional_props, known, "authUri"@, 0);
    lemma_find_unknown(record.additional_props, known, "auth_uri"@, 0);
    lemma_find_unknown(record.additional_props, known, "tokenUri"@, 0);
    lemma_find_unknown(record.additional_props, known, "token_uri"@, 0);
    lemma_find_unknown(record.additional_props, known, "authProviderX509CertUrl"@, 0);
    lemma_find_unknown(record.additional_props, known, "auth_provider_x509_cert_url"@, 0);
    lemma_find_unknown(record.additional_props, known, "clientX509CertUrl"@, 0);
    lemma_find_unknown(record.additional_props, known, "client_x509_cert_url"@, 0);
    lemma_find_unknown(record.additional_props, known, "universeDomain"@, 0);
    lemma_find_unknown(record.additional_props, known, "universe_domain"@, 0);
    let named = Seq::<(Seq<char>, JsonView)>::empty()
        + put("type"@, JsonView::Str(record.cred_type))
        + put("projectId"@, JsonView::Str(record.project_id))
        + put("privateKeyId"@, JsonView::Str(record.private_key_id))
        + put("privateKey"@, JsonView::Str(record.private_key))
        + put("clientEmail"@, JsonView::Str(record.client_email))
        + put("clientId"@, JsonView::Str(record.client_id))
        + put("authUri"@, JsonView::Str(record.auth_uri))
        + put("tokenUri"@, JsonView::Str(record.token_uri))
        + put("authProviderX509CertUrl"@, JsonView::Str(record.auth_provider_x509_cert_url))
        + put("clientX509CertUrl"@, JsonView::Str(record.client_x509_cert_url))
        + put("universeDomain"@, JsonView::Str(record.universe_domain));
    assert(all_known(named, known));
    lemma_rest_of_written(named, record.additional_props, known);
    assert(rest(m, known) == record.additional_props);
    assert(find(m, "type"@) == Some(JsonView::Str(record.cred_type)));
    let cred_type = req_text(m, "type"@, "type"@);
    assert(cred_type == Ok::<Seq<char>, DecodeError>(record.cred_type));
    assert(find(m, "projectId"@) == Some(JsonView::Str(record.project_id)));
    assert(find(m, "project_id"@) is None);
    let project_id = req_text(m, "projectId"@, "project_id"@);
    assert(project_id == Ok::<Seq<char>, DecodeError>(record.project_id));
    assert(find(m, "privateKeyId"@) == Some(JsonView::Str(record.private_key_id)));
    assert(find(m, "private_key_id"@) is None);
    let private_key_id = req_text(m, "privateKeyId"@, "private_key_id"@);
    assert(private_key_id == Ok::<Seq<char>, DecodeError>(record.private_key_id));
    assert(find(m, "privateKey"@) == Some(JsonView::Str(record.private_key)));
    assert(find(m, "private_key"@) is None);
    let private_key = req_text(m, "privateKey"@, "private_key"@);
    assert(private_key == Ok::<Seq<char>, DecodeError>(record.private_key));
    assert(find(m, "clientEmail"@) == Some(JsonView::Str(record.client_email)));
    assert(find(m, "client_email"@) is None);
    let client_email = req_text(m, "clientEmail"@, "client_email"@);
    assert(client_email == Ok::<Seq<char>, DecodeError>(record.client_email));
    assert(find(m, "clientId"@) == Some(JsonView::Str(record.client_id)));
    assert(find(m, "client_id"@) is None);
    let client_id = req_text(m, "clientId"@, "client_id"@);
    assert(client_id == Ok::<Seq<char>, DecodeError>(record.client_id));
    assert(find(m, "authUri"@) == Some(JsonView::Str(record.auth_uri)));
    assert(find(m, "auth_uri"@) is None);
    let auth_uri = req_text(m, "authUri"@, "auth_uri"@);
    assert(auth_uri == Ok::<Seq<char>, DecodeError>(record.auth_uri));
    assert(find(m, "tokenUri"@) == Some(JsonView::Str(record.token_uri)));
    assert(find(m, "token_uri"@) is None);
    let token_uri = req_text(m, "tokenUri"@, "token_uri"@);
    assert(token_uri == Ok::<Seq<char>, DecodeError>(record.token_uri));
    assert(
        find(m, "authProviderX509CertUrl"@) == Some(
            JsonView::Str(record.auth_provider_x509_cert_url),
        )
    );
    assert(find(m, "auth_provider_x509_cert_url"@) is None);
    let auth_provider_x509_cert_url = req_text(
        m,
        "authProviderX509CertUrl"@,
        "auth_provider_x509_cert_url"@,
    );
    assert(auth_provider_x509_cert_url == Ok::<
        Seq<char>,
        DecodeError,
    >(record.auth_provider_x509_cert_url));
    assert(find(m, "clientX509CertUrl"@) == Some(JsonView::Str(record.client_x509_cert_url)));
    assert(find(m, "client_x509_cert_url"@) is None);
    let client_x509_cert_url = req_text(m, "clientX509CertUrl"@, "client_x509_cert_url"@);
    assert(client_x509_cert_url == Ok::<Seq<char>, DecodeError>(record.client_x509_cert_url));
    assert(find(m, "universeDomain"@) == Some(JsonView::Str(record.universe_domain)));
    assert(find(m, "universe_domain"@) is None);
    let universe_domain = req_text(m, "universeDomain"@, "universe_domain"@);
    assert(universe_domain == Ok::<Seq<char>, DecodeError>(record.universe_domain));
    assert(ServiceAccountCredentialView::read_members(m) == Ok::<
        ServiceAccountCredentialView,
        DecodeError,
    >(record));
}

/// A service-account credential.
#[derive(Clone, Debug, PartialEq)]
pub struct ServiceAccountAuth {
    pub service_account_credential: Option<ServiceAccountCredential>,
    pub scopes: Vec<String>,
    pub use_default_credential: Option<bool>,
    pub additional_props: Vec<(String, Json)>,
}

/// The model of [`ServiceAccountAuth`].
pub struct ServiceAccountAuthView {
    pub service_account_credential: Option<ServiceAccountCredentialView>,
    pub scopes: Seq<Seq<char>>,
    pub use_default_credential: Option<bool>,
    pub additional_props: Members,
}

impl View for ServiceAccountAuth {
    type V = ServiceAccountAuthView;

    open spec fn view(&self) -> ServiceAccountAuthView {
        ServiceAccountAuthView {
            service_account_credential: self.service_account_credential.deep_view(),
            scopes: self.scopes.deep_view(),
            use_default_credential: self.use_default_credential,
            additional_props: self.additional_props.deep_view(),
        }
    }
}

impl DeepView for ServiceAccountAuth {
    type V = ServiceAccountAuthView;

    open spec fn deep_view(&self) -> ServiceAccountAuthView {
        self@
    }
}

impl ServiceAccountAuthView {
    /// The record that an object's members hold. The fields are read in
    /// the order in which the record lists them, and the first that
    /// cannot be read fails the record with its error.
    pub open spec fn read_members(m: Members) -> Result<ServiceAccountAuthView, DecodeError> {
        let service_account_credential = opt(
            m,
            "serviceAccountCredential"@,
            "service_account_credential"@,
            |x: JsonView| ServiceAccountCredentialView::read(x),
        );
        let scopes = req_texts(m, "scopes"@, "scopes"@);
        let use_default_credential = opt_flag(
            m,
            "useDefaultCredential"@,
            "use_default_credential"@,
        );
        let additional_props = rest(
            m,
            seq![
                "serviceAccountCredential"@,
                "service_account_credential"@,
                "scopes"@,
                "useDefaultCredential"@,
                "use_default_credential"@,
            ],
        );
        if service_account_credential is Err {
            Err(service_account_credential->Err_0)
        } else if scopes is Err {
            Err(scopes->Err_0)
        } else if use_default_credential is Err {
            Err(use_default_credential->Err_0)
        } else {
            Ok(
                ServiceAccountAuthView {
                    service_account_credential: service_account_credential->Ok_0,
                    scopes: scopes->Ok_0,
                    use_default_credential: use_default_credential->Ok_0,
                    additional_props,
                },
            )
        }
    }

    /// The record that a wire value holds.
    pub open spec fn read(j: JsonView) -> Result<ServiceAccountAuthView, DecodeError> {
        match j {
            JsonView::Object(m) => ServiceAccountAuthView::read_members(m),
            _ => Err(DecodeError::NotAnObject),
        }
    }

    /// The members of the wire form, in the order of the fields. A field
    /// that holds nothing is left out.
    pub open spec fn wire_members(self) -> Members {
        Seq::<(Seq<char>, JsonView)>::empty()
            + put_opt(
                "serviceAccountCredential"@,
                match self.service_account_credential {
                    Some(t) => Some(t.wire()),
                    None => None,
                },
            )
            + put("scopes"@, texts_json(self.scopes))
            + put_opt("useDefaultCredential"@, opt_flag_json(self.use_default_credential))
            + self.additional_props
    }

    /// The wire form of the record.
    pub open spec fn wire(self) -> JsonView {
        JsonView::Object(self.wire_members())
    }
}

impl ServiceAccountAuth {
    /// Reads a wire value as this record.
    pub fn decode(j: &Json) -> (r: Result<ServiceAccountAuth, DecodeError>)
        ensures
            lift(r) == ServiceAccountAuthView::read(j@),
    {
        let m = match j.as_object() {
            Some(m) => m,
            None => {
                return Err(DecodeError::NotAnObject);
            },
        };
        let service_account_credential = match maybe(m, "serviceAccountCredential", "service_account_credential") {
            Some(v) => Some(ServiceAccountCredential::decode(v)?),
            None => None,
        };
        let scopes = get_texts(m, "scopes", "scopes")?;
        let use_default_credential = get_opt_flag(
            m,
            "useDefaultCredential",
            "use_default_credential",
        )?;
        let known: Vec<&str> = vec![
            "serviceAccountCredential",
            "service_account_credential",
            "scopes",
            "useDefaultCredential",
            "use_default_credential",
        ];
        assert(
            known.deep_view() =~= seq![
                "serviceAccountCredential"@,
                "service_account_credential"@,
                "scopes"@,
                "useDefaultCredential"@,
                "use_default_credential"@,
            ]
        );
        let additional_props = rest_of(m, &known);
        Ok(
            ServiceAccountAuth {
                service_account_credential,
                scopes,
                use_default_credential,
                additional_props,
            },
        )
    }

    /// Writes this record in its wire form.
    pub fn encode(&self) -> (r: Json)
        ensures
            r@ == self@.wire(),
    {
        let mut m: Vec<(String, Json)> = Vec::new();
        assert(m.deep_view() =~= Seq::<(Seq<char>, JsonView)>::empty());
        push_opt_json(
            &mut m,
            "serviceAccountCredential",
            match &self.service_account_credential {
                Some(t) => Some(t.encode()),
                None => None,
            },
        );
        push_texts(&mut m, "scopes", &self.scopes);
        push_opt_flag(&mut m, "useDefaultCredential", &self.use_default_credential);
        push_members(&mut m, &self.additional_props);
        Json::object(m)
    }
}

impl ServiceAccountAuthView {
    /// Whether the record is one that its wire form gives back:
    /// no additional member stands under the name of a field; the records it holds are canonical.
    pub open spec fn canonical(self) -> bool {
        &&& (
            self.service_account_credential is Some ==> self.service_account_credential->0.canonical()
        )
        &&& free_of(
            self.additional_props,
            seq![
                "serviceAccountCredential"@,
                "service_account_credential"@,
                "scopes"@,
                "useDefaultCredential"@,
                "use_default_credential"@,
            ],
        )
    }
}

/// A canonical [`ServiceAccountAuth`] is read back from its wire form.
pub proof fn lemma_service_account_auth_reads_back(record: ServiceAccountAuthView)
    requires
        record.canonical(),
    ensures
        ServiceAccountAuthView::read(record.wire()) == Ok::<
            ServiceAccountAuthView,
            DecodeError,
        >(record),
{
    broadcast use group_members;
    reveal_strlit("serviceAccountCredential");
    reveal_strlit("service_account_credential");
    reveal_strlit("scopes");
    reveal_strlit("useDefaultCredential");
    reveal_strlit("use_default_credential");
    assert("serviceAccountCredential"@[1] == 'e');
    assert("scopes"@[1] == 'c');
    assert("serviceAccountCredential"@[0] == 's');
    assert("useDefaultCredential"@[0] == 'u');
    assert("service_account_credential"@[7] == '_');
    assert("serviceAccountCredential"@[7] == 'A');
    assert("service_account_credential"@[1] == 'e');
    assert("service_account_credential"@[0] == 's');
    assert("scopes"@[0] == 's');
    assert("use_default_credential"@[0] == 'u');
    assert("use_default_credential"@[3] == '_');
    assert("useDefaultCredential"@[3] == 'D');
    let m = record.wire_members();
    let known = seq![
        "serviceAccountCredential"@,
        "service_account_credential"@,
        "scopes"@,
        "useDefaultCredential"@,
        "use_default_credential"@,
    ];
    assert(known[0] == "serviceAccountCredential"@);
    assert(known[1] == "service_account_credential"@);
    assert(known[2] == "scopes"@);
    assert(known[3] == "useDefaultCredential"@);
    assert(known[4] == "use_default_credential"@);
    lemma_find_unknown(record.additional_props, known, "serviceAccountCredential"@, 0);
    lemma_find_unknown(record.additional_props, known, "service_account_credential"@, 0);
    lemma_find_unknown(record.additional_props, known, "scopes"@, 0);
    lemma_find_unknown(record.additional_props, known, "useDefaultCredential"@, 0);
    lemma_find_unknown(record.additional_props, known, "use_default_credential"@, 0);
    let named = Seq::<(Seq<char>, JsonView)>::empty()
        + put_opt(
            "serviceAccountCredential"@,
            match record.service_account_credential { Some(t) => Some(t.wire()), None => None, },
        )
        + put("scopes"@, texts_json(record.scopes))
        + put_opt("useDefaultCredential"@, opt_flag_json(record.use_default_credential));
    assert(all_known(named, known));
    lemma_rest_of_written(named, record.additional_props, known);
    assert(rest(m, known) == record.additional_props);
    assert(
        find(m, "serviceAccountCredential"@) == (
            match record.service_account_credential {
                Some(t) => Some(t.wire()),
                None => None::<JsonView>,
            }
        )
    );
    assert(find(m, "service_account_credential"@) is None);
    if record.service_account_credential is Some {
        lemma_service_account_credential_reads_back(record.service_account_credential->0);
    }
    let service_account_credential = opt(
        m,
        "serviceAccountCredential"@,
        "service_account_credential"@,
        |x: JsonView| ServiceAccountCredentialView::read(x),
    );
    assert(service_account_credential == Ok::<
        Option<ServiceAccountCredentialView>,
        DecodeError,
    >(record.service_account_credential));
    assert(find(m, "scopes"@) == Some(texts_json(record.scopes)));
    lemma_texts_read_back(record.scopes);
    let scopes = req_texts(m, "scopes"@, "scopes"@);
    assert(scopes == Ok::<Seq<Seq<char>>, DecodeError>(record.scopes));
    assert(find(m, "useDefaultCredential"@) == opt_flag_json(record.use_default_credential));
    assert(find(m, "use_default_credential"@) is None);
    let use_default_credential = opt_flag(m, "useDefaultCredential"@, "use_default_credential"@);
    assert(use_default_credential == Ok::<
        Option<bool>,
        DecodeError,
    >(record.use_default_credential));
    assert(ServiceAccountAuthView::read_members(m) == Ok::<
        ServiceAccountAuthView,
        DecodeError,
    >(record));
}

/// An OAuth2 credential, at whatever stage of the exchange it is.
#[derive(Clone, Debug, PartialEq)]
pub struct OAuth2 {
    pub client_id: String,
    pub client_secret: String,
    pub auth_uri: String,
    pub state: Option<String>,
    pub redirect_uri: String,
    pub auth_response_uri: Option<String>,
    pub auth_code: Option<String>,
    pub access_token: Option<String>,
    pub refresh_token: Option<String>,
    pub additional_props: Vec<(String, Json)>,
}

/// The model of [`OAuth2`].
pub struct OAuth2View {
    pub client_id: Seq<char>,
    pub client_secret: Seq<char>,
    pub auth_uri: Seq<char>,
    pub state: Option<Seq<char>>,
    pub redirect_uri: Seq<char>,
    pub auth_response_uri: Option<Seq<char>>,
    pub auth_code: Option<Seq<char>>,
    pub access_token: Option<Seq<char>>,
    pub refresh_token: Option<Seq<char>>,
    pub additional_props: Members,
}

impl View for OAuth2 {
    type V = OAuth2View;

    open spec fn view(&self) -> OAuth2View {
        OAuth2View {
            client_id: self.client_id@,
            client_secret: self.client_secret@,
            auth_uri: self.auth_uri@,
            state: self.state.deep_view(),
            redirect_uri: self.redirect_uri@,
            auth_response_uri: self.auth_response_uri.deep_view(),
            auth_code: self.auth_code.deep_view(),
            access_token: self.access_token.deep_view(),
            refresh_token: self.refresh_token.deep_view(),
            additional_props: self.additional_props.deep_view(),
        }
    }
}

impl DeepView for OAuth2 {
    type V = OAuth2View;

    open spec fn deep_view(&self) -> OAuth2View {
        self@
    }
}

impl OAuth2View {
    /// The record that an object's members hold. The fields are read in
    /// the order in which the record lists them, and the first that
    /// cannot be read fails the record with its error.
    pub open spec fn read_members(m: Members) -> Result<OAuth2View, DecodeError> {
        let client_id = req_text(m, "clientId"@, "client_id"@);
        let client_secret = req_text(m, "clientSecret"@, "client_secret"@);
        let auth_uri = req_text(m, "authUri"@, "auth_uri"@);
        let state = opt_text(m, "state"@, "state"@);
        let redirect_uri = req_text(m, "redirectUri"@, "redirect_uri"@);
        let auth_response_uri = opt_text(m, "authResponseUri"@, "auth_response_uri"@);
        let auth_code = opt_text(m, "authCode"@, "auth_code"@);
        let access_token = opt_text(m, "accessToken"@, "access_token"@);
        let refresh_token = opt_text(m, "refreshToken"@, "refresh_token"@);
        let additional_props = rest(
            m,
            seq![
                "clientId"@,
                "client_id"@,
                "clientSecret"@,
                "client_secret"@,
                "authUri"@,
                "auth_uri"@,
                "state"@,
                "redirectUri"@,
                "redirect_uri"@,
                "authResponseUri"@,
                "auth_response_uri"@,
                "authCode"@,
                "auth_code"@,
                "accessToken"@,
                "access_token"@,
                "refreshToken"@,
                "refresh_token"@,
            ],
        );
        if client_id is Err {
            Err(client_id->Err_0)
        } else if client_secret is Err {
            Err(client_secret->Err_0)
        } else if auth_uri is Err {
            Err(auth_uri->Err_0)
        } else if state is Err {
            Err(state->Err_0)
        } else if redirect_uri is Err {
            Err(redirect_uri->Err_0)
        } else if auth_response_uri is Err {
            Err(auth_response_uri->Err_0)
        } else if auth_code is Err {
            Err(auth_code->Err_0)
        } else if access_token is Err {
            Err(access_token->Err_0)
        } else if refresh_token is Err {
            Err(refresh_token->Err_0)
        } else {
            Ok(
                OAuth2View {
                    client_id: client_id->Ok_0,
                    client_secret: client_secret->Ok_0,
                    auth_uri: auth_uri->Ok_0,
                    state: state->Ok_0,
                    redirect_uri: redirect_uri->Ok_0,
                    auth_response_uri: auth_response_uri->Ok_0,
                    auth_code: auth_code->Ok_0,
                    access_token: access_token->Ok_0,
                    refresh_token: refresh_token->Ok_0,
                    additional_props,
                },
            )
        }
    }

    /// The record that a wire value holds.
    pub open spec fn read(j: JsonView) -> Result<OAuth2View, DecodeError> {
        match j {
            JsonView::Object(m) => OAuth2View::read_members(m),
            _ => Err(DecodeError::NotAnObject),
        }
    }

    /// The members of the wire form, in the order of the fields. A field
    /// that holds nothing is left out.
    pub open spec fn wire_members(self) -> Members {
        Seq::<(Seq<char>, JsonView)>::empty()
            + put("clientId"@, JsonView::Str(self.client_id))
            + put("clientSecret"@, JsonView::Str(self.client_secret))
            + put("authUri"@, JsonView::Str(self.auth_uri))
            + put_opt("state"@, opt_text_json(self.state))
            + put("redirectUri"@, JsonView::Str(self.redirect_uri))
            + put_opt("authResponseUri"@, opt_text_json(self.auth_response_uri))
            + put_opt("authCode"@, opt_text_json(self.auth_code))
            + put_opt("accessToken"@, opt_text_json(self.access_token))
            + put_opt("refreshToken"@, opt_text_json(self.refresh_token))
            + self.additional_props
    }

    /// The wire form of the record.
    pub open spec fn wire(self) -> JsonView {
        JsonView::Object(self.wire_members())
    }
}

impl OAuth2 {
    /// Reads a wire value as this record.
    pub fn decode(j: &Json) -> (r: Result<OAuth2, DecodeError>)
        ensures
            lift(r) == OAuth2View::read(j@),
    {
        let m = match j.as_object() {
            Some(m) => m,
            None => {
                return Err(DecodeError::NotAnObject);
            },
        };
        let client_id = get_text(m, "clientId", "client_id")?;
        let client_secret = get_text(m, "clientSecret", "client_secret")?;
        let auth_uri = get_text(m, "authUri", "auth_uri")?;
        let state = get_opt_text(m, "state", "state")?;
        let redirect_uri = get_text(m, "redirectUri", "redirect_uri")?;
        let auth_response_uri = get_opt_text(m, "authResponseUri", "auth_response_uri")?;
        let auth_code = get_opt_text(m, "authCode", "auth_code")?;
        let access_token = get_opt_text(m, "accessToken", "access_token")?;
        let refresh_token = get_opt_text(m, "refreshToken", "refresh_token")?;
        let known: Vec<&str> = vec![
            "clientId",
            "client_id",
            "clientSecret",
            "client_secret",
            "authUri",
            "auth_uri",
            "state",
            "redirectUri",
            "redirect_uri",
            "authResponseUri",
            "auth_response_uri",
            "authCode",
            "auth_code",
            "accessToken",
            "access_token",
            "refreshToken",
            "refresh_token",
        ];
        assert(
            known.deep_view() =~= seq![
                "clientId"@,
                "client_id"@,
                "clientSecret"@,
                "client_secret"@,
                "authUri"@,
                "auth_uri"@,
                "state"@,
                "redirectUri"@,
                "redirect_uri"@,
                "authResponseUri"@,
                "auth_response_uri"@,
                "authCode"@,
                "auth_code"@,
                "accessToken"@,
                "access_token"@,
                "refreshToken"@,
                "refresh_token"@,
            ]
        );
        let additional_props = rest_of(m, &known);
        Ok(
            OAuth2 {
                client_id,
                client_secret,
                auth_uri,
                state,
                redirect_uri,
                auth_response_uri,
                auth_code,
                access_token,
                refresh_token,
                additional_props,
            },
        )
    }

    /// Writes this record in its wire form.
    pub fn encode(&self) -> (r: Json)
        ensures
            r@ == self@.wire(),
    {
        let mut m: Vec<(String, Json)> = Vec::new();
        assert(m.deep_view() =~= Seq::<(Seq<char>, JsonView)>::empty());
        push_text(&mut m, "clientId", &self.client_id);
        push_text(&mut m, "clientSecret", &self.client_secret);
        push_text(&mut m, "authUri", &self.auth_uri);
        push_opt_text(&mut m, "state", &self.state);
        push_text(&mut m, "redirectUri", &self.redirect_uri);
        push_opt_text(&mut m, "authResponseUri", &self.auth_response_uri);
        push_opt_text(&mut m, "authCode", &self.auth_code);
        push_opt_text(&mut m, "accessToken", &self.access_token);
        push_opt_text(&mut m, "refreshToken", &self.refresh_token);
        push_members(&mut m, &self.additional_props);
        Json::object(m)
    }
}

impl OAuth2View {
    /// Whether the record is one that its wire form gives back:
    /// no additional member stands under the name of a field.
    pub open spec fn canonical(self) -> bool {
        &&& free_of(
            self.additional_props,
            seq![
                "clientId"@,
                "client_id"@,
                "clientSecret"@,
                "client_secret"@,
                "authUri"@,
                "auth_uri"@,
                "state"@,
                "redirectUri"@,
                "redirect_uri"@,
                "authResponseUri"@,
                "auth_response_uri"@,
                "authCode"@,
                "auth_code"@,
                "accessToken"@,
                "access_token"@,
                "refreshToken"@,
                "refresh_token"@,
            ],
        )
    }
}

/// A canonical [`OAuth2`] is read back from its wire form.
pub proof fn lemma_oauth2_reads_back(record: OAuth2View)
    requires
        record.canonical(),
    ensures
        OAuth2View::read(record.wire()) == Ok::<OAuth2View, DecodeError>(record),
{
    broadcast use group_members;
    reveal_strlit("clientId");
    reveal_strlit("client_id");
    reveal_strlit("clientSecret");
    reveal_strlit("client_secret");
    reveal_strlit("authUri");
    reveal_strlit("auth_uri");
    reveal_strlit("state");
    reveal_strlit("redirectUri");
    reveal_strlit("redirect_uri");
    reveal_strlit("authResponseUri");
    reveal_strlit("auth_response_uri");
    reveal_strlit("authCode");
    reveal_strlit("auth_code");
    reveal_strlit("accessToken");
    reveal_strlit("access_token");
    reveal_strlit("refreshToken");
    reveal_strlit("refresh_token");
    assert("clientId"@[6] == 'I');
    assert("clientSecret"@[6] == 'S');
    assert("clientId"@[0] == 'c');
    assert("authUri"@[0] == 'a');
    assert("state"@[0] == 's');
    assert("redirectUri"@[0] == 'r');
    assert("authResponseUri"@[0] == 'a');
    assert("authCode"@[0] == 'a');
    assert("accessToken"@[0] == 'a');
    assert("refreshToken"@[0] == 'r');
    assert("client_id"@[6] == '_');
    assert("client_id"@[0] == 'c');
    assert("clientSecret"@[0] == 'c');
    assert("client_secret"@[6] == '_');
    assert("client_secret"@[0] == 'c');
    assert("authUri"@[4] == 'U');
    assert("authResponseUri"@[4] == 'R');
    assert("authCode"@[4] == 'C');
    assert("authUri"@[1] == 'u');
    assert("accessToken"@[1] == 'c');
    assert("auth_uri"@[0] == 'a');
    assert("auth_uri"@[4] == '_');
    assert("auth_uri"@[1] == 'u');
    assert("redirectUri"@[2] == 'd');
    assert("refreshToken"@[2] == 'f');
    assert("redirect_uri"@[0] == 'r');
    assert("redirect_uri"@[8] == '_');
    assert("redirectUri"@[8] == 'U');
    assert("redirect_uri"@[2] == 'd');
    assert("authResponseUri"@[1] == 'u');
    assert("auth_response_uri"@[0] == 'a');
    assert("auth_response_uri"@[4] == '_');
    assert("auth_response_uri"@[1] == 'u');
    assert("authCode"@[1] == 'u');
    assert("auth_code"@[0] == 'a');
    assert("auth_code"@[4] == '_');
    assert("auth_code"@[1] == 'u');
    assert("access_token"@[0] == 'a');
    assert("access_token"@[1] == 'c');
    assert("access_token"@[6] == '_');
    assert("accessToken"@[6] == 'T');
    assert("refresh_token"@[0] == 'r');
    assert("refresh_token"@[2] == 'f');
    assert("refresh_token"@[7] == '_');
    assert("refreshToken"@[7] == 'T');
    let m = record.wire_members();
    let known = seq![
        "clientId"@,
        "client_id"@,
        "clientSecret"@,
        "client_secret"@,
        "authUri"@,
        "auth_uri"@,
        "state"@,
        "redirectUri"@,
        "redirect_uri"@,
        "authResponseUri"@,
        "auth_response_uri"@,
        "authCode"@,
        "auth_code"@,
        "accessToken"@,
        "access_token"@,
        "refreshToken"@,
        "refresh_token"@,
    ];
    assert(known[0] == "clientId"@);
    assert(known[1] == "client_id"@);
    assert(known[2] == "clientSecret"@);
    assert(known[3] == "client_secret"@);
    assert(known[4] == "authUri"@);
    assert(known[5] == "auth_uri"@);
    assert(known[6] == "state"@);
    assert(known[7] == "redirectUri"@);
    assert(known[8] == "redirect_uri"@);
    assert(known[9] == "authResponseUri"@);
    assert(known[10] == "auth_response_uri"@);
    assert(known[11] == "authCode"@);
    assert(known[12] == "auth_code"@);
    assert(known[13] == "accessToken"@);
    assert(known[14] == "access_token"@);
    assert(known[15] == "refreshToken"@);
    assert(known[16] == "refresh_token"@);
    lemma_find_unknown(record.additional_props, known, "clientId"@, 0);
    lemma_find_unknown(record.additional_props, known, "client_id"@, 0);
    lemma_find_unknown(record.additional_props, known, "clientSecret"@, 0);
    lemma_find_unknown(record.additional_props, known, "client_secret"@, 0);
    lemma_find_unknown(record.additional_props, known, "authUri"@, 0);
    lemma_find_unknown(record.additional_props, known, "auth_uri"@, 0);
    lemma_find_unknown(record.additional_props, known, "state"@, 0);
    lemma_find_unknown(record.additional_props, known, "redirectUri"@, 0);
    lemma_find_unknown(record.additional_props, known, "redirect_uri"@, 0);
    lemma_find_unknown(record.additional_props, known, "authResponseUri"@, 0);
    lemma_find_unknown(record.additional_props, known, "auth_response_uri"@, 0);
    lemma_find_unknown(record.additional_props, known, "authCode"@, 0);
    lemma_find_unknown(record.additional_props, known, "auth_code"@, 0);
    lemma_find_unknown(record.additional_props, known, "accessToken"@, 0);
    lemma_find_unknown(record.additional_props, known, "access_token"@, 0);
    lemma_find_unknown(record.additional_props, known, "refreshToken"@, 0);
    lemma_find_unknown(record.additional_props, known, "refresh_token"@, 0);
    let named = Seq::<(Seq<char>, JsonView)>::empty()
        + put("clientId"@, JsonView::Str(record.client_id))
        + put("clientSecret"@, JsonView::Str(record.client_secret))
        + put("authUri"@, JsonView::Str(record.auth_uri))
        + put_opt("state"@, opt_text_json(record.state))
        + put("redirectUri"@, JsonView::Str(record.redirect_uri))
        + put_opt("authResponseUri"@, opt_text_json(record.auth_response_uri))
        + put_opt("authCode"@, opt_text_json(record.auth_code))
        + put_opt("accessToken"@, opt_text_json(record.access_token))
        + put_opt("refreshToken"@, opt_text_json(record.refresh_token));
    assert(all_known(named, known));
    lemma_rest_of_written(named, record.additional_props, known);
    assert(rest(m, known) == record.additional_props);
    assert(find(m, "clientId"@) == Some(JsonView::Str(record.client_id)));
    assert(find(m, "client_id"@) is None);
    let client_id = req_text(m, "clientId"@, "client_id"@);
    assert(client_id == Ok::<Seq<char>, DecodeError>(record.client_id));
    assert(find(m, "clientSecret"@) == Some(JsonView::Str(record.client_secret)));
    assert(find(m, "client_secret"@) is None);
    let client_secret = req_text(m, "clientSecret"@, "client_secret"@);
    assert(client_secret == Ok::<Seq<char>, DecodeError>(record.client_secret));
    assert(find(m, "authUri"@) == Some(JsonView::Str(record.auth_uri)));
    assert(find(m, "auth_uri"@) is None);
    let auth_uri = req_text(m, "authUri"@, "auth_uri"@);
    assert(auth_uri == Ok::<Seq<char>, DecodeError>(record.auth_uri));
    assert(find(m, "state"@) == opt_text_json(record.state));
    let state = opt_text(m, "state"@, "state"@);
    assert(state == Ok::<Option<Seq<char>>, DecodeError>(record.state));
    assert(find(m, "redirectUri"@) == Some(JsonView::Str(record.redirect_uri)));
    assert(find(m, "redirect_uri"@) is None);
    let redirect_uri = req_text(m, "redirectUri"@, "redirect_uri"@);
    assert(redirect_uri == Ok::<Seq<char>, DecodeError>(record.redirect_uri));
    assert(find(m, "authResponseUri"@) == opt_text_json(record.auth_response_uri));
    assert(find(m, "auth_response_uri"@) is None);
    let auth_response_uri = opt_text(m, "authResponseUri"@, "auth_response_uri"@);
    assert(auth_response_uri == Ok::<Option<Seq<char>>, DecodeError>(record.auth_response_uri));
    assert(find(m, "authCode"@) == opt_text_json(record.auth_code));
    assert(find(m, "auth_code"@) is None);
    let auth_code = opt_text(m, "authCode"@, "auth_code"@);
    assert(auth_code == Ok::<Option<Seq<char>>, DecodeError>(record.auth_code));
    assert(find(m, "accessToken"@) == opt_text_json(record.access_token));
    assert(find(m, "access_token"@) is None);
    let access_token = opt_text(m, "accessToken"@, "access_token"@);
    assert(access_token == Ok::<Option<Seq<char>>, DecodeError>(record.access_token));
    assert(find(m, "refreshToken"@) == opt_text_json(record.refresh_token));
    assert(find(m, "refresh_token"@) is None);
    let refresh_token = opt_text(m, "refreshToken"@, "refresh_token"@);
    assert(refresh_token == Ok::<Option<Seq<char>>, DecodeError>(record.refresh_token));
    assert(OAuth2View::read_members(m) == Ok::<OAuth2View, DecodeError>(record));
}

/// A credential of one of four kinds. `auth_type` says which; the field of
/// that kind should be the only one of the four that is populated.
#[derive(Clone, Debug, PartialEq)]
pub struct RawAuthCredential {
    pub auth_type: String,
    pub resource_ref: String,
    pub api_key: Option<String>,
    pub http: Option<HttpAuth>,
    pub service_account: Option<ServiceAccountAuth>,
    pub oauth2: Option<OAuth2>,
    pub additional_props: Vec<(String, Json)>,
}

/// The model of [`RawAuthCredential`].
pub struct RawAuthCredentialView {
    pub auth_type: Seq<char>,
    pub resource_ref: Seq<char>,
    pub api_key: Option<Seq<char>>,
    pub http: Option<HttpAuthView>,
    pub service_account: Option<ServiceAccountAuthView>,
    pub oauth2: Option<OAuth2View>,
    pub additional_props: Members,
}

impl View for RawAuthCredential {
    type V = RawAuthCredentialView;

    open spec fn view(&self) -> RawAuthCredentialView {
        RawAuthCredentialView {
            auth_type: self.auth_type@,
            resource_ref: self.resource_ref@,
            api_key: self.api_key.deep_view(),
            http: self.http.deep_view(),
            service_account: self.service_account.deep_view(),
            oauth2: self.oauth2.deep_view(),
            additional_props: self.additional_props.deep_view(),
        }
    }
}

impl DeepView for RawAuthCredential {
    type V = RawAuthCredentialView;

    open spec fn deep_view(&self) -> RawAuthCredentialView {
        self@
    }
}

impl RawAuthCredentialView {
    /// The record that an object's members hold. The fields are read in
    /// the order in which the record lists them, and the first that
    /// cannot be read fails the record with its error.
    pub open spec fn read_members(m: Members) -> Result<RawAuthCredentialView, DecodeError> {
        let auth_type = req_text(m, "authType"@, "auth_type"@);
        let resource_ref = req_text(m, "resourceRef"@, "resource_ref"@);
        let api_key = opt_text(m, "apiKey"@, "api_key"@);
        let http = opt(m, "http"@, "http"@, |x: JsonView| HttpAuthView::read(x));
        let service_account = opt(
            m,
            "serviceAccount"@,
            "service_account"@,
            |x: JsonView| ServiceAccountAuthView::read(x),
        );
        let oauth2 = opt(m, "oauth2"@, "oauth2"@, |x: JsonView| OAuth2View::read(x));
        let additional_props = rest(
            m,
            seq![
                "authType"@,
                "auth_type"@,
                "resourceRef"@,
                "resource_ref"@,
                "apiKey"@,
                "api_key"@,
                "http"@,
                "serviceAccount"@,
                "service_account"@,
                "oauth2"@,
            ],
        );
        if auth_type is Err {
            Err(auth_type->Err_0)
        } else if resource_ref is Err {
            Err(resource_ref->Err_0)
        } else if api_key is Err {
            Err(api_key->Err_0)
        } else if http is Err {
            Err(http->Err_0)
        } else if service_account is Err {
            Err(service_account->Err_0)
        } else if oauth2 is Err {
            Err(oauth2->Err_0)
        } else {
            Ok(
                RawAuthCredentialView {
                    auth_type: auth_type->Ok_0,
                    resource_ref: resource_ref->Ok_0,
                    api_key: api_key->Ok_0,
                    http: http->Ok_0,
                    service_account: service_account->Ok_0,
                    oauth2: oauth2->Ok_0,
                    additional_props,
                },
            )
        }
    }

    /// The record that a wire value holds.
    pub open spec fn read(j: JsonView) -> Result<RawAuthCredentialView, DecodeError> {
        match j {
            JsonView::Object(m) => RawAuthCredentialView::read_members(m),
            _ => Err(DecodeError::NotAnObject),
        }
    }

    /// The members of the wire form, in the order of the fields. A field
    /// that holds nothing is left out.
    pub open spec fn wire_members(self) -> Members {
        Seq::<(Seq<char>, JsonView)>::empty()
            + put("authType"@, JsonView::Str(self.auth_type))
            + put("resourceRef"@, JsonView::Str(self.resource_ref))
            + put_opt("apiKey"@, opt_text_json(self.api_key))
            + put_opt(
                "http"@,
                match self.http {
                    Some(t) => Some(t.wire()),
                    None => None,
                },
            )
            + put_opt(
                "serviceAccount"@,
                match self.service_account {
                    Some(t) => Some(t.wire()),
                    None => None,
                },
            )
            + put_opt(
                "oauth2"@,
                match self.oauth2 {
                    Some(t) => Some(t.wire()),
                    None => None,
                },
            )
            + self.additional_props
    }

    /// The wire form of the record.
    pub open spec fn wire(self) -> JsonView {
        JsonView::Object(self.wire_members())
    }
}

impl RawAuthCredential {
    /// Reads a wire value as this record.
    pub fn decode(j: &Json) -> (r: Result<RawAuthCredential, DecodeError>)
        ensures
            lift(r) == RawAuthCredentialView::read(j@),
    {
        let m = match j.as_object() {
            Some(m) => m,
            None => {
                return Err(DecodeError::NotAnObject);
            },
        };
        let auth_type = get_text(m, "authType", "auth_type")?;
        let resource_ref = get_text(m, "resourceRef", "resource_ref")?;
        let api_key = get_opt_text(m, "apiKey", "api_key")?;
        let http = match maybe(m, "http", "http") {
            Some(v) => Some(HttpAuth::decode(v)?),
            None => None,
        };
        let service_account = match maybe(m, "serviceAccount", "service_account") {
            Some(v) => Some(ServiceAccountAuth::decode(v)?),
            None => None,
        };
        let oauth2 = match maybe(m, "oauth2", "oauth2") {
            Some(v) => Some(OAuth2::decode(v)?),
            None => None,
        };
        let known: Vec<&str> = vec![
            "authType",
            "auth_type",
            "resourceRef",
            "resource_ref",
            "apiKey",
            "api_key",
            "http",
            "serviceAccount",
            "service_account",
            "oauth2",
        ];
        assert(
            known.deep_view() =~= seq![
                "authType"@,
                "auth_type"@,
                "resourceRef"@,
                "resource_ref"@,
                "apiKey"@,
                "api_key"@,
                "http"@,
                "serviceAccount"@,
                "service_account"@,
                "oauth2"@,
            ]
        );
        let additional_props = rest_of(m, &known);
        Ok(
            RawAuthCredential {
                auth_type,
                resource_ref,
                api_key,
                http,
                service_account,
                oauth2,
                additional_props,
            },
        )
    }

    /// Writes this record in its wire form.
    pub fn encode(&self) -> (r: Json)
        ensures
            r@ == self@.wire(),
    {
        let mut m: Vec<(String, Json)> = Vec::new();
        assert(m.deep_view() =~= Seq::<(Seq<char>, JsonView)>::empty());
        push_text(&mut m, "authType", &self.auth_type);
        push_text(&mut m, "resourceRef", &self.resource_ref);
        push_opt_text(&mut m, "apiKey", &self.api_key);
        push_opt_json(
            &mut m,
            "http",
            match &self.http {
                Some(t) => Some(t.encode()),
                None => None,
            },
        );
        push_opt_json(
            &mut m,
            "serviceAccount",
            match &self.service_account {
                Some(t) => Some(t.encode()),
                None => None,
            },
        );
        push_opt_json(
            &mut m,
            "oauth2",
            match &self.oauth2 {
                Some(t) => Some(t.encode()),
                None => None,
            },
        );
        push_members(&mut m, &self.additional_props);
        Json::object(m)
    }
}

impl RawAuthCredentialView {
    /// Whether the record is one that its wire form gives back:
    /// no additional member stands under the name of a field; the records it holds are canonical.
    pub open spec fn canonical(self) -> bool {
        &&& (self.http is Some ==> self.http->0.canonical())
        &&& (self.service_account is Some ==> self.service_account->0.canonical())
        &&& (self.oauth2 is Some ==> self.oauth2->0.canonical())
        &&& free_of(
            self.additional_props,
            seq![
                "authType"@,
                "auth_type"@,
                "resourceRef"@,
                "resource_ref"@,
                "apiKey"@,
                "api_key"@,
                "http"@,
                "serviceAccount"@,
                "service_account"@,
                "oauth2"@,
            ],
        )
    }
}

/// A canonical [`RawAuthCredential`] is read back from its wire form.
pub proof fn lemma_raw_auth_credential_reads_back(record: RawAuthCredentialView)
    requires
        record.canonical(),
    ensures
        RawAuthCredentialView::read(record.wire()) == Ok::<
            RawAuthCredentialView,
            DecodeError,
        >(record),
{
    broadcast use group_members;
    reveal_strlit("authType");
    reveal_strlit("auth_type");
    reveal_strlit("resourceRef");
    reveal_strlit("resource_ref");
    reveal_strlit("apiKey");
    reveal_strlit("api_key");
    reveal_strlit("http");
    reveal_strlit("serviceAccount");
    reveal_strlit("service_account");
    reveal_strlit("oauth2");
    assert("authType"@[0] == 'a');
    assert("resourceRef"@[0] == 'r');
    assert("authType"@[1] == 'u');
    assert("apiKey"@[1] == 'p');
    assert("http"@[0] == 'h');
    assert("serviceAccount"@[0] == 's');
    assert("oauth2"@[0] == 'o');
    assert("auth_type"@[4] == '_');
    assert("authType"@[4] == 'T');
    assert("auth_type"@[0] == 'a');
    assert("auth_type"@[1] == 'u');
    assert("apiKey"@[0] == 'a');
    assert("resource_ref"@[0] == 'r');
    assert("resource_ref"@[8] == '_');
    assert("resourceRef"@[8] == 'R');
    assert("api_key"@[1] == 'p');
    assert("api_key"@[0] == 'a');
    assert("api_key"@[3] == '_');
    assert("apiKey"@[3] == 'K');
    assert("service_account"@[0] == 's');
    assert("service_account"@[7] == '_');
    assert("serviceAccount"@[7] == 'A');
    let m = record.wire_members();
    let known = seq![
        "authType"@,
        "auth_type"@,
        "resourceRef"@,
        "resource_ref"@,
        "apiKey"@,
        "api_key"@,
        "http"@,
        "serviceAccount"@,
        "service_account"@,
        "oauth2"@,
    ];
    assert(known[0] == "authType"@);
    assert(known[1] == "auth_type"@);
    assert(known[2] == "resourceRef"@);
    assert(known[3] == "resource_ref"@);
    assert(known[4] == "apiKey"@);
    assert(known[5] == "api_key"@);
    assert(known[6] == "http"@);
    assert(known[7] == "serviceAccount"@);
    assert(known[8] == "service_account"@);
    assert(known[9] == "oauth2"@);
    lemma_find_unknown(record.additional_props, known, "authType"@, 0);
    lemma_find_unknown(record.additional_props, known, "auth_type"@, 0);
    lemma_find_unknown(record.additional_props, known, "resourceRef"@, 0);
    lemma_find_unknown(record.additional_props, known, "resource_ref"@, 0);
    lemma_find_unknown(record.additional_props, known, "apiKey"@, 0);
    lemma_find_unknown(record.additional_props, known, "api_key"@, 0);
    lemma_find_unknown(record.additional_props, known, "http"@, 0);
    lemma_find_unknown(record.additional_props, known, "serviceAccount"@, 0);
    lemma_find_unknown(record.additional_props, known, "service_account"@, 0);
    lemma_find_unknown(record.additional_props, known, "oauth2"@, 0);
    let named = Seq::<(Seq<char>, JsonView)>::empty()
        + put("authType"@, JsonView::Str(record.auth_type))
        + put("resourceRef"@, JsonView::Str(record.resource_ref))
        + put_opt("apiKey"@, opt_text_json(record.api_key))
        + put_opt("http"@, match record.http { Some(t) => Some(t.wire()), None => None, })
        + put_opt(
            "serviceAccount"@,
            match record.service_account { Some(t) => Some(t.wire()), None => None, },
        )
        + put_opt("oauth2"@, match record.oauth2 { Some(t) => Some(t.wire()), None => None, });
    assert(all_known(named, known));
    lemma_rest_of_written(named, record.additional_props, known);
    assert(rest(m, known) == record.additional_props);
    assert(find(m, "authType"@) == Some(JsonView::Str(record.auth_type)));
    assert(find(m, "auth_type"@) is None);
    let auth_type = req_text(m, "authType"@, "auth_type"@);
    assert(auth_type == Ok::<Seq<char>, DecodeError>(record.auth_type));
    assert(find(m, "resourceRef"@) == Some(JsonView::Str(record.resource_ref)));
    assert(find(m, "resource_ref"@) is None);
    let resource_ref = req_text(m, "resourceRef"@, "resource_ref"@);
    assert(resource_ref == Ok::<Seq<char>, DecodeError>(record.resource_ref));
    assert(find(m, "apiKey"@) == opt_text_json(record.api_key));
    assert(find(m, "api_key"@) is None);
    let api_key = opt_text(m, "apiKey"@, "api_key"@);
    assert(api_key == Ok::<Option<Seq<char>>, DecodeError>(record.api_key));
    assert(
        find(m, "http"@) == (
            match record.http { Some(t) => Some(t.wire()), None => None::<JsonView> }
        )
    );
    if record.http is Some {
        lemma_http_auth_reads_back(record.http->0);
    }
    let http = opt(m, "http"@, "http"@, |x: JsonView| HttpAuthView::read(x));
    assert(http == Ok::<Option<HttpAuthView>, DecodeError>(record.http));
    assert(
        find(m, "serviceAccount"@) == (
            match record.service_account { Some(t) => Some(t.wire()), None => None::<JsonView> }
        )
    );
    assert(find(m, "service_account"@) is None);
    if record.service_account is Some {
        lemma_service_account_auth_reads_back(record.service_account->0);
    }
    let service_account = opt(
        m,
        "serviceAccount"@,
        "service_account"@,
        |x: JsonView| ServiceAccountAuthView::read(x),
    );
    assert(service_account == Ok::<
        Option<ServiceAccountAuthView>,
        DecodeError,
    >(record.service_account));
    assert(
        find(m, "oauth2"@) == (
            match record.oauth2 { Some(t) => Some(t.wire()), None => None::<JsonView> }
        )
    );
    if record.oauth2 is Some {
        lemma_oauth2_reads_back(record.oauth2->0);
    }
    let oauth2 = opt(m, "oauth2"@, "oauth2"@, |x: JsonView| OAuth2View::read(x));
    assert(oauth2 == Ok::<Option<OAuth2View>, DecodeError>(record.oauth2));
    assert(RawAuthCredentialView::read_members(m) == Ok::<
        RawAuthCredentialView,
        DecodeError,
    >(record));
}

/// One request for authorization: the scheme, the credential as given, and
/// the credential as exchanged where it has been.
#[derive(Clone, Debug, PartialEq)]
pub struct AuthConfig {
    pub auth_scheme: AuthScheme,
    pub raw_auth_credential: RawAuthCredential,
    pub exchanged_auth_credential: Option<RawAuthCredential>,
}

/// The model of [`AuthConfig`].
pub struct AuthConfigView {
    pub auth_scheme: AuthSchemeView,
    pub raw_auth_credential: RawAuthCredentialView,
    pub exchanged_auth_credential: Option<RawAuthCredentialView>,
}

impl View for AuthConfig {
    type V = AuthConfigView;

    open spec fn view(&self) -> AuthConfigView {
        AuthConfigView {
            auth_scheme: self.auth_scheme@,
            raw_auth_credential: self.raw_auth_credential@,
            exchanged_auth_credential: self.exchanged_auth_credential.deep_view(),
        }
    }
}

impl DeepView for AuthConfig {
    type V = AuthConfigView;

    open spec fn deep_view(&self) -> AuthConfigView {
        self@
    }
}

impl AuthConfigView {
    /// The record that an object's members hold. The fields are read in
    /// the order in which the record lists them, and the first that
    /// cannot be read fails the record with its error.
    pub open spec fn read_members(m: Members) -> Result<AuthConfigView, DecodeError> {
        let auth_scheme = req(
            m,
            "authScheme"@,
            "auth_scheme"@,
            |x: JsonView| AuthSchemeView::read(x),
        );
        let raw_auth_credential = req(
            m,
            "rawAuthCredential"@,
            "raw_auth_credential"@,
            |x: JsonView| RawAuthCredentialView::read(x),
        );
        let exchanged_auth_credential = opt(
            m,
            "exchangedAuthCredential"@,
            "exchanged_auth_credential"@,
            |x: JsonView| RawAuthCredentialView::read(x),
        );
        if auth_scheme is Err {
            Err(auth_scheme->Err_0)
        } else if raw_auth_credential is Err {
            Err(raw_auth_credential->Err_0)
        } else if exchanged_auth_credential is Err {
            Err(exchanged_auth_credential->Err_0)
        } else {
            Ok(
                AuthConfigView {
                    auth_scheme: auth_scheme->Ok_0,
                    raw_auth_credential: raw_auth_credential->Ok_0,
                    exchanged_auth_credential: exchanged_auth_credential->Ok_0,
                },
            )
        }
    }

    /// The record that a wire value holds.
    pub open spec fn read(j: JsonView) -> Result<AuthConfigView, DecodeError> {
        match j {
            JsonView::Object(m) => AuthConfigView::read_members(m),
            _ => Err(DecodeError::NotAnObject),
        }
    }

    /// The members of the wire form, in the order of the fields. A field
    /// that holds nothing is left out.
    pub open spec fn wire_members(self) -> Members {
        Seq::<(Seq<char>, JsonView)>::empty()
            + put("authScheme"@, self.auth_scheme.wire())
            + put("rawAuthCredential"@, self.raw_auth_credential.wire())
            + put_opt(
                "exchangedAuthCredential"@,
                match self.exchanged_auth_credential {
                    Some(t) => Some(t.wire()),
                    None => None,
                },
            )
    }

    /// The wire form of the record.
    pub open spec fn wire(self) -> JsonView {
        JsonView::Object(self.wire_members())
    }
}

impl AuthConfig {
    /// Reads a wire value as this record.
    pub fn decode(j: &Json) -> (r: Result<AuthConfig, DecodeError>)
        ensures
            lift(r) == AuthConfigView::read(j@),
    {
        let m = match j.as_object() {
            Some(m) => m,
            None => {
                return Err(DecodeError::NotAnObject);
            },
        };
        let auth_scheme = AuthScheme::decode(field(m, "authScheme", "auth_scheme")?)?;
        let raw_auth_credential = RawAuthCredential::decode(
            field(m, "rawAuthCredential", "raw_auth_credential")?,
        )?;
        let exchanged_auth_credential = match maybe(m, "exchangedAuthCredential", "exchanged_auth_credential") {
            Some(v) => Some(RawAuthCredential::decode(v)?),
            None => None,
        };
        Ok(AuthConfig { auth_scheme, raw_auth_credential, exchanged_auth_credential })
    }

    /// Writes this record in its wire form.
    pub fn encode(&self) -> (r: Json)
        ensures
            r@ == self@.wire(),
    {
        let mut m: Vec<(String, Json)> = Vec::new();
        assert(m.deep_view() =~= Seq::<(Seq<char>, JsonView)>::empty());
        push_json(&mut m, "authScheme", self.auth_scheme.encode());
        push_json(&mut m, "rawAuthCredential", self.raw_auth_credential.encode());
        push_opt_json(
            &mut m,
            "exchangedAuthCredential",
            match &self.exchanged_auth_credential {
                Some(t) => Some(t.encode()),
                None => None,
            },
        );
        Json::object(m)
    }
}

impl AuthConfigView {
    /// Whether the record is one that its wire form gives back:
    /// the records it holds are canonical.
    pub open spec fn canonical(self) -> bool {
        &&& self.auth_scheme.canonical()
        &&& self.raw_auth_credential.canonical()
        &&& (
            self.exchanged_auth_credential is Some ==> self.exchanged_auth_credential->0.canonical()
        )
    }
}

/// A canonical [`AuthConfig`] is read back from its wire form.
pub proof fn lemma_auth_config_reads_back(record: AuthConfigView)
    requires
        record.canonical(),
    ensures
        AuthConfigView::read(record.wire()) == Ok::<AuthConfigView, DecodeError>(record),
{
    broadcast use group_members;
    reveal_strlit("authScheme");
    reveal_strlit("auth_scheme");
    reveal_strlit("rawAuthCredential");
    reveal_strlit("raw_auth_credential");
    reveal_strlit("exchangedAuthCredential");
    reveal_strlit("exchanged_auth_credential");
    assert("authScheme"@[0] == 'a');
    assert("rawAuthCredential"@[0] == 'r');
    assert("exchangedAuthCredential"@[0] == 'e');
    assert("auth_scheme"@[4] == '_');
    assert("authScheme"@[4] == 'S');
    assert("auth_scheme"@[0] == 'a');
    assert("raw_auth_credential"@[0] == 'r');
    assert("raw_auth_credential"@[3] == '_');
    assert("rawAuthCredential"@[3] == 'A');
    assert("exchanged_auth_credential"@[0] == 'e');
    assert("exchanged_auth_credential"@[9] == '_');
    assert("exchangedAuthCredential"@[9] == 'A');
    let m = record.wire_members();
    assert(find(m, "authScheme"@) == Some(record.auth_scheme.wire()));
    assert(find(m, "auth_scheme"@) is None);
    lemma_auth_scheme_reads_back(record.auth_scheme);
    let auth_scheme = req(m, "authScheme"@, "auth_scheme"@, |x: JsonView| AuthSchemeView::read(x));
    assert(auth_scheme == Ok::<AuthSchemeView, DecodeError>(record.auth_scheme));
    assert(find(m, "rawAuthCredential"@) == Some(record.raw_auth_credential.wire()));
    assert(find(m, "raw_auth_credential"@) is None);
    lemma_raw_auth_credential_reads_back(record.raw_auth_credential);
    let raw_auth_credential = req(
        m,
        "rawAuthCredential"@,
        "raw_auth_credential"@,
        |x: JsonView| RawAuthCredentialView::read(x),
    );
    assert(raw_auth_credential == Ok::<
        RawAuthCredentialView,
        DecodeError,
    >(record.raw_auth_credential));
    assert(
        find(m, "exchangedAuthCredential"@) == (
            match record.exchanged_auth_credential {
                Some(t) => Some(t.wire()),
                None => None::<JsonView>,
            }
        )
    );
    assert(find(m, "exchanged_auth_credential"@) is None);
    if record.exchanged_auth_credential is Some {
        lemma_raw_auth_credential_reads_back(record.exchanged_auth_credential->0);
    }
    let exchanged_auth_credential = opt(
        m,
        "exchangedAuthCredential"@,
        "exchanged_auth_credential"@,
        |x: JsonView| RawAuthCredentialView::read(x),
    );
    assert(exchanged_auth_credential == Ok::<
        Option<RawAuthCredentialView>,
        DecodeError,
    >(record.exchanged_auth_credential));
    assert(AuthConfigView::read_members(m) == Ok::<AuthConfigView, DecodeError>(record));
}
impl RawAuthCredentialView {
    /// Whether no field of another kind than `auth_type` declares is
    /// populated. The kinds are named `apiKey`, `http`, `serviceAccount` and
    /// `oauth2`.
    pub open spec fn consistent(self) -> bool {
        &&& self.api_key is Some ==> self.auth_type == "apiKey"@
        &&& self.http is Some ==> self.auth_type == "http"@
        &&& self.service_account is Some ==> self.auth_type == "serviceAccount"@
        &&& self.oauth2 is Some ==> self.auth_type == "oauth2"@
    }
}

impl RawAuthCredential {
    /// Whether no field of another kind than `auth_type` declares is
    /// populated.
    pub fn is_consistent(&self) -> (r: bool)
        ensures
            r == self@.consistent(),
    {
        let kind = self.auth_type.as_str();
        (self.api_key.is_none() || same_text(kind, "apiKey")) && (self.http.is_none() || same_text(
            kind,
            "http",
        )) && (self.service_account.is_none() || same_text(kind, "serviceAccount")) && (
        self.oauth2.is_none() || same_text(kind, "oauth2"))
    }
}

/// The requests for authorization of one turn event, each under the name
/// that the agent gave it.
#[derive(Clone, Debug, PartialEq)]
pub struct RequestedAuthConfigs {
    pub configs: Vec<(String, AuthConfig)>,
}

/// The model of [`RequestedAuthConfigs`].
pub struct RequestedAuthConfigsView {
    pub configs: Seq<(Seq<char>, AuthConfigView)>,
}

impl View for RequestedAuthConfigs {
    type V = RequestedAuthConfigsView;

    open spec fn view(&self) -> RequestedAuthConfigsView {
        RequestedAuthConfigsView { configs: self.configs.deep_view() }
    }
}

impl DeepView for RequestedAuthConfigs {
    type V = RequestedAuthConfigsView;

    open spec fn deep_view(&self) -> RequestedAuthConfigsView {
        self@
    }
}

impl RequestedAuthConfigsView {
    /// The requests that a wire value holds: every member of the object is
    /// one, under its key.
    pub open spec fn read(j: JsonView) -> Result<RequestedAuthConfigsView, DecodeError> {
        match j {
            JsonView::Object(m) => match each(m, |x: JsonView| AuthConfigView::read(x)) {
                Ok(configs) => Ok(RequestedAuthConfigsView { configs }),
                Err(e) => Err(e),
            },
            _ => Err(DecodeError::NotAnObject),
        }
    }

    /// The wire form: an object with one member for each request.
    pub open spec fn wire(self) -> JsonView {
        JsonView::Object(keyed(self.configs, |c: AuthConfigView| c.wire()))
    }
}

impl RequestedAuthConfigsView {
    /// Whether the requests are such that their wire form gives them back:
    /// each of them is canonical.
    pub open spec fn canonical(self) -> bool {
        forall|i: int| 0 <= i < self.configs.len() ==> (#[trigger] self.configs[i]).1.canonical()
    }
}

/// Canonical [`RequestedAuthConfigs`] are read back from their wire form.
pub proof fn lemma_requested_auth_configs_reads_back(record: RequestedAuthConfigsView)
    requires
        record.canonical(),
    ensures
        RequestedAuthConfigsView::read(record.wire()) == Ok::<
            RequestedAuthConfigsView,
            DecodeError,
        >(record),
{
    assert forall|i: int| 0 <= i < record.configs.len() implies AuthConfigView::read(
        (#[trigger] record.configs[i]).1.wire(),
    ) == Ok::<AuthConfigView, DecodeError>(record.configs[i].1) by {
        lemma_auth_config_reads_back(record.configs[i].1);
    }
    lemma_each_reads_back(
        record.configs,
        |c: AuthConfigView| c.wire(),
        |x: JsonView| AuthConfigView::read(x),
    );
}

impl RequestedAuthConfigs {
    /// Reads a wire value as a set of requests.
    pub fn decode(j: &Json) -> (r: Result<RequestedAuthConfigs, DecodeError>)
        ensures
            lift(r) == RequestedAuthConfigsView::read(j@),
    {
        let m = match j.as_object() {
            Some(m) => m,
            None => {
                return Err(DecodeError::NotAnObject);
            },
        };
        let configs = read_each(m, AuthConfig::decode, Ghost(|x: JsonView| AuthConfigView::read(x)))?;
        Ok(RequestedAuthConfigs { configs })
    }

    /// Writes the requests in their wire form.
    pub fn encode(&self) -> (r: Json)
        ensures
            r@ == self@.wire(),
    {
        let m = write_each(&self.configs, AuthConfig::encode, Ghost(|c: AuthConfigView| c.wire()));
        Json::object(m)
    }
}

} // verus!
