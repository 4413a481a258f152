//! OAuth: the authorization URL, the token exchange, and the token
//! endpoints that go through a client.
use vstd::prelude::*;

use crate::error::{Error, ErrorKind};
use crate::json::{is_json, member_text, member_text_of};
use crate::key::IntoText;
use crate::service::{HttpMethod, Service};

verus! {

/// The redirect URI that asks for the code to be shown instead of sent.
pub open spec fn out_of_band() -> Seq<char> {
    "urn:ietf:wg:oauth:2.0:oob"@
}

/// The authorization URL for a client id, redirect URI and scope.
pub open spec fn authorize_text(id: Seq<char>, uri: Seq<char>, scope: Seq<char>) -> Seq<char> {
    "https://annict.com/oauth/authorize?client_id="@ + id + "&redirect_uri="@ + uri
        + "&response_type=code&scope="@ + scope
}

/// With no overrides, the authorization URL asks for the out-of-band
/// redirect and the `read` scope.
pub proof fn lemma_default_authorize_url(id: Seq<char>)
    ensures
        authorize_text(id, out_of_band(), "read"@) == "https://annict.com/oauth/authorize?client_id="@
            + id + "&redirect_uri=urn:ietf:wg:oauth:2.0:oob&response_type=code&scope=read"@,
{
    reveal_strlit("urn:ietf:wg:oauth:2.0:oob");
    reveal_strlit("read");
    reveal_strlit("&redirect_uri=");
    reveal_strlit("&response_type=code&scope=");
    reveal_strlit("&redirect_uri=urn:ietf:wg:oauth:2.0:oob&response_type=code&scope=read");
    assert(authorize_text(id, out_of_band(), "read"@) =~= "https://annict.com/oauth/authorize?client_id="@
        + id + "&redirect_uri=urn:ietf:wg:oauth:2.0:oob&response_type=code&scope=read"@);
}

/// The form of a token exchange, in the order it is sent.
pub open spec fn token_form(
    id: Seq<char>,
    secret: Seq<char>,
    uri: Seq<char>,
    code: Seq<char>,
) -> Seq<(Seq<char>, Seq<char>)> {
    seq![
        ("client_id"@, id),
        ("client_secret"@, secret),
        ("grant_type"@, "authorization_code"@),
        ("redirect_uri"@, uri),
        ("code"@, code),
    ]
}

/// `s[a..b]` is what is left of `s` once every leading and every trailing
/// `"` is removed.
pub open spec fn quote_bounds(s: Seq<char>, a: int, b: int) -> bool {
    &&& 0 <= a <= b <= s.len()
    &&& forall|i: int| 0 <= i < a ==> s[i] == '"'
    &&& forall|i: int| b <= i < s.len() ==> s[i] == '"'
    &&& a < b ==> s[a] != '"' && s[b - 1] != '"'
}

/// `s` without its leading and trailing `"`.
pub open spec fn quote_trimmed(s: Seq<char>) -> Seq<char> {
    let (a, b) = choose|a: int, b: int| quote_bounds(s, a, b);
    s.subrange(a, b)
}

/// Any two ways of trimming `s` leave the same text.
pub proof fn lemma_quote_bounds_unique(s: Seq<char>, a: int, b: int, c: int, d: int)
    requires
        quote_bounds(s, a, b),
        quote_bounds(s, c, d),
    ensures
        s.subrange(a, b) == s.subrange(c, d),
{
    if a < b && c < d {
        assert(a == c);
        assert(b == d);
    } else if a < b {
        assert(s[a] == '"');
    } else if c < d {
        assert(s[c] == '"');
    } else {
        assert(s.subrange(a, b) =~= s.subrange(c, d));
    }
}

/// Removes every leading and trailing `"` of `s`.
pub fn trim_quotes(s: &str) -> (r: String)
    ensures
        r@ == quote_trimmed(s@),
{
    let n = s.unicode_len();
    let mut a: usize = 0;
    while a < n
        invariant
            n == s@.len(),
            a <= n,
            forall|i: int| 0 <= i < a ==> s@[i] == '"',
        ensures
            a <= n,
            forall|i: int| 0 <= i < a ==> s@[i] == '"',
            a < n ==> s@[a as int] != '"',
        decreases n - a,
    {
        if s.get_char(a) != '"' {
            break;
        }
        a = a + 1;
    }
    let mut b: usize = n;
    while b > a
        invariant
            n == s@.len(),
            a <= b <= n,
            forall|i: int| 0 <= i < a ==> s@[i] == '"',
            forall|i: int| b <= i < n ==> s@[i] == '"',
            a < n ==> s@[a as int] != '"',
        ensures
            a <= b <= n,
            forall|i: int| b <= i < n ==> s@[i] == '"',
            a < b ==> s@[b - 1] != '"',
        decreases b - a,
    {
        if s.get_char(b - 1) != '"' {
            break;
        }
        b = b - 1;
    }
    let r = s.substring_char(a, b).to_owned();
    proof {
        assert(quote_bounds(s@, a as int, b as int));
        let (c, d) = choose|c: int, d: int| quote_bounds(s@, c, d);
        lemma_quote_bounds_unique(s@, a as int, b as int, c, d);
    }
    r
}

/// A client of the service, known by its id.
#[derive(Debug, Clone)]
pub struct OAuth {
    pub client_id: String,
}

/// The parts of an authorization URL.
#[derive(Debug)]
pub struct AuthorizeUrl {
    pub client_id: String,
    pub redirect_uri: String,
    pub scope: String,
}

/// The parts of a request that trades an authorization code for an access
/// token.
#[derive(Debug)]
pub struct AccessToken {
    pub client_id: String,
    pub client_secret: String,
    pub redirect_uri: String,
    pub code: String,
}

impl OAuth {
    pub fn client_id<P: IntoText>(client_id: P) -> (r: OAuth)
        ensures
            r.client_id@ == client_id.spec_text(),
    {
        OAuth { client_id: client_id.into_text() }
    }

    /// The request template of `GET /oauth/token/info`.
    pub fn info() -> (r: Service<String>)
        ensures
            r.method == HttpMethod::GET,
            r.url@ == "https://api.annict.com/oauth/token/info"@,
            r.params is None,
    {
        Service {
            method: HttpMethod::GET,
            url: "https://api.annict.com/oauth/token/info".to_owned(),
            params: None,
        }
    }

    /// The request template of `POST /oauth/revoke` for `access_token`.
    pub fn revoke<A: IntoText>(access_token: A) -> (r: Service<String>)
        ensures
            r.method == HttpMethod::POST,
            r.url@ == "https://api.annict.com/oauth/revoke"@,
            r.params is Some,
            r.spec_params().len() == 1,
            r.spec_params()[0].0@ == "token"@,
            r.spec_params()[0].1 == access_token.spec_text(),
    {
        let pairs = vec![("token".to_owned(), access_token.into_text())];
        Service {
            method: HttpMethod::POST,
            url: "https://api.annict.com/oauth/revoke".to_owned(),
            params: Some(pairs),
        }
    }

    /// An authorization URL for this client with the default redirect URI
    /// and scope.
    pub fn authorize_url(&self) -> (r: AuthorizeUrl)
        ensures
            r.client_id@ == self.client_id@,
            r.redirect_uri@ == out_of_band(),
            r.scope@ == "read"@,
    {
        AuthorizeUrl::new(self.client_id.clone())
    }

    /// A token exchange for this client with the default redirect URI and an
    /// empty secret and code.
    pub fn access_token(&self) -> (r: AccessToken)
        ensures
            r.client_id@ == self.client_id@,
            r.client_secret@ == Seq::<char>::empty(),
            r.redirect_uri@ == out_of_band(),
            r.code@ == Seq::<char>::empty(),
    {
        AccessToken::new(self.client_id.clone())
    }
}

impl AuthorizeUrl {
    pub fn new(client_id: String) -> (r: AuthorizeUrl)
        ensures
            r.client_id == client_id,
            r.redirect_uri@ == out_of_band(),
            r.scope@ == "read"@,
    {
        AuthorizeUrl {
            client_id,
            redirect_uri: "urn:ietf:wg:oauth:2.0:oob".to_owned(),
            scope: "read".to_owned(),
        }
    }

    pub fn redirect_uri<P: IntoText>(&mut self, redirect_uri: P) -> (r: &mut Self)
        ensures
            r.client_id == old(self).client_id,
            r.redirect_uri@ == redirect_uri.spec_text(),
            r.scope == old(self).scope,
            *final(self) == *final(r),
    {
        self.redirect_uri = redirect_uri.into_text();
        self
    }

    pub fn scope<P: IntoText>(&mut self, scope: P) -> (r: &mut Self)
        ensures
            r.client_id == old(self).client_id,
            r.redirect_uri == old(self).redirect_uri,
            r.scope@ == scope.spec_text(),
            *final(self) == *final(r),
    {
        self.scope = scope.into_text();
        self
    }

    /// The URL to open in a browser to authorize the client.
    pub fn build(&self) -> (r: String)
        ensures
            r@ == authorize_text(self.client_id@, self.redirect_uri@, self.scope@),
    {
        let mut url = "https://annict.com/oauth/authorize?client_id=".to_owned();
        url.append(self.client_id.as_str());
        url.append("&redirect_uri=");
        url.append(self.redirect_uri.as_str());
        url.append("&response_type=code&scope=");
        url.append(self.scope.as_str());
        url
    }
}

impl AccessToken {
    pub fn new(client_id: String) -> (r: AccessToken)
        ensures
            r.client_id == client_id,
            r.client_secret@ == Seq::<char>::empty(),
            r.redirect_uri@ == out_of_band(),
            r.code@ == Seq::<char>::empty(),
    {
        AccessToken {
            client_id,
            client_secret: String::new(),
            code: String::new(),
            redirect_uri: "urn:ietf:wg:oauth:2.0:oob".to_owned(),
        }
    }

    pub fn client_secret<P: IntoText>(&mut self, client_secret: P) -> (r: &mut Self)
        ensures
            r.client_id == old(self).client_id,
            r.client_secret@ == client_secret.spec_text(),
            r.redirect_uri == old(self).redirect_uri,
            r.code == old(self).code,
            *final(self) == *final(r),
    {
        self.client_secret = client_secret.into_text();
        self
    }

    pub fn code<P: IntoText>(&mut self, code: P) -> (r: &mut Self)
        ensures
            r.client_id == old(self).client_id,
            r.client_secret == old(self).client_secret,
            r.redirect_uri == old(self).redirect_uri,
            r.code@ == code.spec_text(),
            *final(self) == *final(r),
    {
        self.code = code.into_text();
        self
    }

    pub fn redirect_uri<P: IntoText>(&mut self, redirect_uri: P) -> (r: &mut Self)
        ensures
            r.client_id == old(self).client_id,
            r.client_secret == old(self).client_secret,
            r.redirect_uri@ == redirect_uri.spec_text(),
            r.code == old(self).code,
            *final(self) == *final(r),
    {
        self.redirect_uri = redirect_uri.into_text();
        self
    }

    /// The URL of the token endpoint.
    pub fn endpoint() -> (r: String)
        ensures
            r@ == "https://api.annict.com/oauth/token"@,
    {
        "https://api.annict.com/oauth/token".to_owned()
    }

    /// The form of the exchange: client id, secret, grant type, redirect URI
    /// and code.
    pub fn form(&self) -> (r: Vec<(String, String)>)
        ensures
            crate::client::query_view(r@) == token_form(
                self.client_id@,
                self.client_secret@,
                self.redirect_uri@,
                self.code@,
            ),
    {
        let r = vec![
            ("client_id".to_owned(), self.client_id.clone()),
            ("client_secret".to_owned(), self.client_secret.clone()),
            ("grant_type".to_owned(), "authorization_code".to_owned()),
            ("redirect_uri".to_owned(), self.redirect_uri.clone()),
            ("code".to_owned(), self.code.clone()),
        ];
        proof {
            assert(crate::client::query_view(r@) =~= token_form(
                self.client_id@,
                self.client_secret@,
                self.redirect_uri@,
                self.code@,
            ));
        }
        r
    }

    /// The access token in the answer of the token endpoint: the
    /// `access_token` member as JSON text, without its leading and trailing
    /// quotes. Fails exactly when the answer is not JSON.
    pub fn token_from_body(body: &str) -> (r: Result<String, Error>)
        ensures
            r is Err <==> !is_json(body@),
            r is Err ==> r->Err_0.spec_kind() == ErrorKind::InvalidValue,
            r is Ok ==> r->Ok_0@ == quote_trimmed(member_text_of(body@, "access_token"@)),
    {
        match member_text(body, "access_token") {
            Some(text) => Ok(trim_quotes(text.as_str())),
            None => Err(Error::new(ErrorKind::InvalidValue)),
        }
    }
}

} // verus!
