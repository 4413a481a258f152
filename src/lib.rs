//! A typed client for the Annict REST API.
//!
//! Each endpoint has a closed set of legal query keys (an enum with an
//! `Invalid` sentinel). A [`Service`] describes one request: its method, its
//! URL and the query pairs that survived validation. A [`Client`] turns a
//! service into a [`Request`] that carries the access token as well.
pub mod error;
pub mod json;
pub mod key;
pub mod keys;
pub mod auth;
pub mod client;
pub mod endpoints;
pub mod nonblocking;
pub mod service;

pub use crate::error::{Error, ErrorKind};
pub use crate::key::{IntoText, IsValid, KeyLike, ParamKey, QueryName};
pub use crate::keys::{
    Activities, Casts, Characters, Episodes, Followers, Following, Me, MeFollowing_activities,
    MePrograms, MeRecords, MeReviews, MeStatuses, MeWorks, Organizations, People, Records, Reviews,
    Series, Staffs, Users, Works,
};
pub use crate::auth::{trim_quotes, AccessToken, AuthorizeUrl, OAuth};
pub use crate::client::{Client, Request};
pub use crate::endpoints::{
    activities, casts, characters, episodes, followers, following, me, me_following_activities,
    me_programs, me_records, me_reviews, me_statuses, me_works, organizations, people, records,
    reviews, series, staffs, users, works, Method,
};
pub use crate::service::{HttpMethod, Service};
pub use serde_json::Value;
