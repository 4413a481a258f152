//! The endpoints: one request template per URL and method.
use vstd::prelude::*;

use crate::keys::{
    Activities, Casts, Characters, Episodes, Followers, Following, Me, MeFollowing_activities,
    MePrograms, MeRecords, MeReviews, MeStatuses, MeWorks, Organizations, People, Records, Reviews,
    Series, Staffs, Users, Works,
};
use crate::service::{HttpMethod, Service};

verus! {

/// The method of a write to one of the user's own resources.
#[derive(Clone, Copy, Debug, PartialEq, Eq, Structural)]
pub enum Method {
    POST,
    PATCH,
    DELETE,
}

/// The HTTP method that a write uses.
pub open spec fn http_method(m: Method) -> HttpMethod {
    match m {
        Method::POST => HttpMethod::POST,
        Method::PATCH => HttpMethod::PATCH,
        Method::DELETE => HttpMethod::DELETE,
    }
}

/// The character of a decimal digit.
pub open spec fn digit_char(d: nat) -> char {
    if d == 0 { '0' }
    else if d == 1 { '1' }
    else if d == 2 { '2' }
    else if d == 3 { '3' }
    else if d == 4 { '4' }
    else if d == 5 { '5' }
    else if d == 6 { '6' }
    else if d == 7 { '7' }
    else if d == 8 { '8' }
    else { '9' }
}

/// The decimal text of `n`, without sign or leading zeros.
pub open spec fn decimal(n: nat) -> Seq<char>
    decreases n,
{
    if n < 10 {
        seq![digit_char(n)]
    } else {
        decimal(n / 10).push(digit_char(n % 10))
    }
}

/// Relies on `ToString` for `usize` (through `Display`), which writes the
/// number in decimal.
#[verifier::external_body]
fn decimal_text(n: usize) -> (r: String)
    ensures
        r@ == decimal(n as nat),
{
    n.to_string()
}

fn method_of(m: &Method) -> (r: HttpMethod)
    ensures
        r == http_method(*m),
{
    match m {
        Method::POST => HttpMethod::POST,
        Method::PATCH => HttpMethod::PATCH,
        Method::DELETE => HttpMethod::DELETE,
    }
}

fn request<P>(method: HttpMethod, url: &str) -> (r: Service<P>)
    ensures
        r.method == method,
        r.url@ == url@,
        r.params is None,
{
    Service { method, url: url.to_owned(), params: None }
}

/// `base` followed by `/` and the decimal text of `id`.
fn url_with_id(base: &str, id: usize) -> (r: String)
    ensures
        r@ == base@ + seq!['/'] + decimal(id as nat),
{
    let mut url = base.to_owned();
    url.append("/");
    let digits = decimal_text(id);
    url.append(digits.as_str());
    proof {
        reveal_strlit("/");
        assert("/"@ =~= seq!['/']);
    }
    url
}

/// The request template of `/v1/me/reviews`: a `POST` to the collection
/// that names the work, or a `PATCH` or `DELETE` of the review `id`.
pub fn me_reviews(method: Method, id: usize) -> (r: Service<MeReviews>)
    ensures
        r.method == http_method(method),
        method == Method::POST ==> r.url@ == "https://api.annict.com/v1/me/reviews"@ && r.params
            is Some && r.spec_params() == seq![(MeReviews::work_id, decimal(id as nat))],
        method != Method::POST ==> r.url@ == "https://api.annict.com/v1/me/reviews"@ + seq!['/']
            + decimal(id as nat) && r.params is None,
{
    let m = method_of(&method);
    match method {
        Method::POST => {
            let pairs = vec![(MeReviews::work_id, decimal_text(id))];
            let r = Service {
                method: m,
                url: "https://api.annict.com/v1/me/reviews".to_owned(),
                params: Some(pairs),
            };
            proof {
                assert(r.spec_params() =~= seq![(MeReviews::work_id, decimal(id as nat))]);
            }
            r
        },
        _ => Service {
            method: m,
            url: url_with_id("https://api.annict.com/v1/me/reviews", id),
            params: None,
        },
    }
}

/// The request template of `/v1/me/records`: a `POST` to the collection
/// that names the episode, or a `PATCH` or `DELETE` of the record `id`.
pub fn me_records(method: Method, id: usize) -> (r: Service<MeRecords>)
    ensures
        r.method == http_method(method),
        method == Method::POST ==> r.url@ == "https://api.annict.com/v1/me/records"@ && r.params
            is Some && r.spec_params() == seq![(MeRecords::episode_id, decimal(id as nat))],
        method != Method::POST ==> r.url@ == "https://api.annict.com/v1/me/records"@ + seq!['/']
            + decimal(id as nat) && r.params is None,
{
    let m = method_of(&method);
    match method {
        Method::POST => {
            let pairs = vec![(MeRecords::episode_id, decimal_text(id))];
            let r = Service {
                method: m,
                url: "https://api.annict.com/v1/me/records".to_owned(),
                params: Some(pairs),
            };
            proof {
                assert(r.spec_params() =~= seq![(MeRecords::episode_id, decimal(id as nat))]);
            }
            r
        },
        _ => Service {
            method: m,
            url: url_with_id("https://api.annict.com/v1/me/records", id),
            params: None,
        },
    }
}

/// The request template of `GET /v1/reviews`; its keys are [`Reviews`].
pub fn reviews() -> (r: Service<Reviews>)
    ensures
        r.method == HttpMethod::GET,
        r.url@ == "https://api.annict.com/v1/reviews"@,
        r.params is None,
{
    request(HttpMethod::GET, "https://api.annict.com/v1/reviews")
}

/// The request template of `GET /v1/users`; its keys are [`Users`].
pub fn users() -> (r: Service<Users>)
    ensures
        r.method == HttpMethod::GET,
        r.url@ == "https://api.annict.com/v1/users"@,
        r.params is None,
{
    request(HttpMethod::GET, "https://api.annict.com/v1/users")
}

/// The request template of `GET /v1/following`; its keys are [`Following`].
pub fn following() -> (r: Service<Following>)
    ensures
        r.method == HttpMethod::GET,
        r.url@ == "https://api.annict.com/v1/following"@,
        r.params is None,
{
    request(HttpMethod::GET, "https://api.annict.com/v1/following")
}

/// The request template of `GET /v1/followers`; its keys are [`Followers`].
pub fn followers() -> (r: Service<Followers>)
    ensures
        r.method == HttpMethod::GET,
        r.url@ == "https://api.annict.com/v1/followers"@,
        r.params is None,
{
    request(HttpMethod::GET, "https://api.annict.com/v1/followers")
}

/// The request template of `GET /v1/activities`; its keys are [`Activities`].
pub fn activities() -> (r: Service<Activities>)
    ensures
        r.method == HttpMethod::GET,
        r.url@ == "https://api.annict.com/v1/activities"@,
        r.params is None,
{
    request(HttpMethod::GET, "https://api.annict.com/v1/activities")
}

/// The request template of `GET /v1/me`; its keys are [`Me`].
pub fn me() -> (r: Service<Me>)
    ensures
        r.method == HttpMethod::GET,
        r.url@ == "https://api.annict.com/v1/me"@,
        r.params is None,
{
    request(HttpMethod::GET, "https://api.annict.com/v1/me")
}

/// The request template of `GET /v1/me/following_activities`; its keys are [`MeFollowing_activities`].
pub fn me_following_activities() -> (r: Service<MeFollowing_activities>)
    ensures
        r.method == HttpMethod::GET,
        r.url@ == "https://api.annict.com/v1/me/following_activities"@,
        r.params is None,
{
    request(HttpMethod::GET, "https://api.annict.com/v1/me/following_activities")
}

/// The request template of `GET /v1/works`; its keys are [`Works`].
pub fn works() -> (r: Service<Works>)
    ensures
        r.method == HttpMethod::GET,
        r.url@ == "https://api.annict.com/v1/works"@,
        r.params is None,
{
    request(HttpMethod::GET, "https://api.annict.com/v1/works")
}

/// The request template of `GET /v1/episodes`; its keys are [`Episodes`].
pub fn episodes() -> (r: Service<Episodes>)
    ensures
        r.method == HttpMethod::GET,
        r.url@ == "https://api.annict.com/v1/episodes"@,
        r.params is None,
{
    request(HttpMethod::GET, "https://api.annict.com/v1/episodes")
}

/// The request template of `GET /v1/records`; its keys are [`Records`].
pub fn records() -> (r: Service<Records>)
    ensures
        r.method == HttpMethod::GET,
        r.url@ == "https://api.annict.com/v1/records"@,
        r.params is None,
{
    request(HttpMethod::GET, "https://api.annict.com/v1/records")
}

/// The request template of `POST /v1/me/statuses`; its keys are [`MeStatuses`].
pub fn me_statuses() -> (r: Service<MeStatuses>)
    ensures
        r.method == HttpMethod::POST,
        r.url@ == "https://api.annict.com/v1/me/statuses"@,
        r.params is None,
{
    request(HttpMethod::POST, "https://api.annict.com/v1/me/statuses")
}

/// The request template of `GET /v1/me/works`; its keys are [`MeWorks`].
pub fn me_works() -> (r: Service<MeWorks>)
    ensures
        r.method == HttpMethod::GET,
        r.url@ == "https://api.annict.com/v1/me/works"@,
        r.params is None,
{
    request(HttpMethod::GET, "https://api.annict.com/v1/me/works")
}

/// The request template of `GET /v1/me/programs`; its keys are [`MePrograms`].
pub fn me_programs() -> (r: Service<MePrograms>)
    ensures
        r.method == HttpMethod::GET,
        r.url@ == "https://api.annict.com/v1/me/programs"@,
        r.params is None,
{
    request(HttpMethod::GET, "https://api.annict.com/v1/me/programs")
}

/// The request template of `GET /v1/people`; its keys are [`People`].
pub fn people() -> (r: Service<People>)
    ensures
        r.method == HttpMethod::GET,
        r.url@ == "https://api.annict.com/v1/people"@,
        r.params is None,
{
    request(HttpMethod::GET, "https://api.annict.com/v1/people")
}

/// The request template of `GET /v1/organizations`; its keys are [`Organizations`].
pub fn organizations() -> (r: Service<Organizations>)
    ensures
        r.method == HttpMethod::GET,
        r.url@ == "https://api.annict.com/v1/organizations"@,
        r.params is None,
{
    request(HttpMethod::GET, "https://api.annict.com/v1/organizations")
}

/// The request template of `GET /v1/series`; its keys are [`Series`].
pub fn series() -> (r: Service<Series>)
    ensures
        r.method == HttpMethod::GET,
        r.url@ == "https://api.annict.com/v1/series"@,
        r.params is None,
{
    request(HttpMethod::GET, "https://api.annict.com/v1/series")
}

/// The request template of `GET /v1/characters`; its keys are [`Characters`].
pub fn characters() -> (r: Service<Characters>)
    ensures
        r.method == HttpMethod::GET,
        r.url@ == "https://api.annict.com/v1/characters"@,
        r.params is None,
{
    request(HttpMethod::GET, "https://api.annict.com/v1/characters")
}

/// The request template of `GET /v1/casts`; its keys are [`Casts`].
pub fn casts() -> (r: Service<Casts>)
    ensures
        r.method == HttpMethod::GET,
        r.url@ == "https://api.annict.com/v1/casts"@,
        r.params is None,
{
    request(HttpMethod::GET, "https://api.annict.com/v1/casts")
}

/// The request template of `GET /v1/staffs`; its keys are [`Staffs`].
pub fn staffs() -> (r: Service<Staffs>)
    ensures
        r.method == HttpMethod::GET,
        r.url@ == "https://api.annict.com/v1/staffs"@,
        r.params is None,
{
    request(HttpMethod::GET, "https://api.annict.com/v1/staffs")
}
} // verus!
