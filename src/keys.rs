//! The query keys of each endpoint.
use vstd::prelude::*;

use crate::key::{IsValid, ParamKey, QueryName};

verus! {

/// Query keys accepted by `/v1/reviews`; `Invalid` stands for any other name.
#[allow(non_camel_case_types)]
#[derive(Clone, Copy, Debug, PartialEq, Eq, Structural)]
pub enum Reviews {
    fields,
    filter_ids,
    filter_work_id,
    page,
    per_page,
    sort_id,
    sort_likes_count,
    Invalid,
}

impl IsValid for Reviews {
    open spec fn spec_is_valid(&self) -> bool {
        !(*self is Invalid)
    }

    fn is_valid(&self) -> (r: bool) {
        match self {
            Reviews::Invalid => false,
            _ => true,
        }
    }
}

impl QueryName for Reviews {
    open spec fn spec_name(&self) -> Seq<char> {
        match *self {
            Reviews::fields => "fields"@,
            Reviews::filter_ids => "filter_ids"@,
            Reviews::filter_work_id => "filter_work_id"@,
            Reviews::page => "page"@,
            Reviews::per_page => "per_page"@,
            Reviews::sort_id => "sort_id"@,
            Reviews::sort_likes_count => "sort_likes_count"@,
            Reviews::Invalid => "Invalid"@,
        }
    }

    fn name(&self) -> (r: String) {
        match self {
            Reviews::fields => "fields".to_owned(),
            Reviews::filter_ids => "filter_ids".to_owned(),
            Reviews::filter_work_id => "filter_work_id".to_owned(),
            Reviews::page => "page".to_owned(),
            Reviews::per_page => "per_page".to_owned(),
            Reviews::sort_id => "sort_id".to_owned(),
            Reviews::sort_likes_count => "sort_likes_count".to_owned(),
            Reviews::Invalid => "Invalid".to_owned(),
        }
    }
}

impl ParamKey for Reviews {
    open spec fn spec_keys() -> Seq<Self> {
        seq![
            Reviews::fields,
            Reviews::filter_ids,
            Reviews::filter_work_id,
            Reviews::page,
            Reviews::per_page,
            Reviews::sort_id,
            Reviews::sort_likes_count,
        ]
    }

    open spec fn spec_invalid() -> Self {
        Reviews::Invalid
    }

    fn keys() -> (r: Vec<Self>) {
        vec![
            Reviews::fields,
            Reviews::filter_ids,
            Reviews::filter_work_id,
            Reviews::page,
            Reviews::per_page,
            Reviews::sort_id,
            Reviews::sort_likes_count,
        ]
    }

    fn invalid() -> (r: Self) {
        Reviews::Invalid
    }

    proof fn lemma_key_set() {
        reveal_strlit("fields");
        reveal_strlit("filter_ids");
        reveal_strlit("filter_work_id");
        reveal_strlit("page");
        reveal_strlit("per_page");
        reveal_strlit("sort_id");
        reveal_strlit("sort_likes_count");
        reveal_strlit("Invalid");
        assert("fields"@ =~= seq!['f', 'i', 'e', 'l', 'd', 's']);
        assert("filter_ids"@ =~= seq!['f', 'i', 'l', 't', 'e', 'r', '_', 'i', 'd', 's']);
        assert("filter_work_id"@ =~= seq!['f', 'i', 'l', 't', 'e', 'r', '_', 'w', 'o', 'r', 'k', '_', 'i', 'd']);
        assert("page"@ =~= seq!['p', 'a', 'g', 'e']);
        assert("per_page"@ =~= seq!['p', 'e', 'r', '_', 'p', 'a', 'g', 'e']);
        assert("sort_id"@ =~= seq!['s', 'o', 'r', 't', '_', 'i', 'd']);
        assert("sort_likes_count"@ =~= seq!['s', 'o', 'r', 't', '_', 'l', 'i', 'k', 'e', 's', '_', 'c', 'o', 'u', 'n', 't']);
        assert("Invalid"@ =~= seq!['I', 'n', 'v', 'a', 'l', 'i', 'd']);
        assert("fields"@.len() == 6);
        assert("filter_ids"@.len() == 10);
        assert("filter_work_id"@.len() == 14);
        assert("page"@.len() == 4);
        assert("per_page"@.len() == 8);
        assert("sort_id"@.len() == 7);
        assert("sort_likes_count"@.len() == 16);
        assert("Invalid"@.len() == 7);
        let keys = Self::spec_keys();
        assert forall|k: Self| k.spec_is_valid() <==> #[trigger] keys.contains(k) by {
            match k {
                Reviews::fields => assert(keys[0] == k),
                Reviews::filter_ids => assert(keys[1] == k),
                Reviews::filter_work_id => assert(keys[2] == k),
                Reviews::page => assert(keys[3] == k),
                Reviews::per_page => assert(keys[4] == k),
                Reviews::sort_id => assert(keys[5] == k),
                Reviews::sort_likes_count => assert(keys[6] == k),
                Reviews::Invalid => assert(forall|i: int| 0 <= i < keys.len() ==> keys[i] != k),
            }
        }
    }
}

/// Query keys accepted by `/v1/users`; `Invalid` stands for any other name.
#[allow(non_camel_case_types)]
#[derive(Clone, Copy, Debug, PartialEq, Eq, Structural)]
pub enum Users {
    fields,
    filter_ids,
    filter_usernames,
    page,
    per_page,
    sort_id,
    Invalid,
}

impl IsValid for Users {
    open spec fn spec_is_valid(&self) -> bool {
        !(*self is Invalid)
    }

    fn is_valid(&self) -> (r: bool) {
        match self {
            Users::Invalid => false,
            _ => true,
        }
    }
}

impl QueryName for Users {
    open spec fn spec_name(&self) -> Seq<char> {
        match *self {
            Users::fields => "fields"@,
            Users::filter_ids => "filter_ids"@,
            Users::filter_usernames => "filter_usernames"@,
            Users::page => "page"@,
            Users::per_page => "per_page"@,
            Users::sort_id => "sort_id"@,
            Users::Invalid => "Invalid"@,
        }
    }

    fn name(&self) -> (r: String) {
        match self {
            Users::fields => "fields".to_owned(),
            Users::filter_ids => "filter_ids".to_owned(),
            Users::filter_usernames => "filter_usernames".to_owned(),
            Users::page => "page".to_owned(),
            Users::per_page => "per_page".to_owned(),
            Users::sort_id => "sort_id".to_owned(),
            Users::Invalid => "Invalid".to_owned(),
        }
    }
}

impl ParamKey for Users {
    open spec fn spec_keys() -> Seq<Self> {
        seq![
            Users::fields,
            Users::filter_ids,
            Users::filter_usernames,
            Users::page,
            Users::per_page,
            Users::sort_id,
        ]
    }

    open spec fn spec_invalid() -> Self {
        Users::Invalid
    }

    fn keys() -> (r: Vec<Self>) {
        vec![
            Users::fields,
            Users::filter_ids,
            Users::filter_usernames,
            Users::page,
            Users::per_page,
            Users::sort_id,
        ]
    }

    fn invalid() -> (r: Self) {
        Users::Invalid
    }

    proof fn lemma_key_set() {
        reveal_strlit("fields");
        reveal_strlit("filter_ids");
        reveal_strlit("filter_usernames");
        reveal_strlit("page");
        reveal_strlit("per_page");
        reveal_strlit("sort_id");
        reveal_strlit("Invalid");
        assert("fields"@ =~= seq!['f', 'i', 'e', 'l', 'd', 's']);
        assert("filter_ids"@ =~= seq!['f', 'i', 'l', 't', 'e', 'r', '_', 'i', 'd', 's']);
        assert("filter_usernames"@ =~= seq!['f', 'i', 'l', 't', 'e', 'r', '_', 'u', 's', 'e', 'r', 'n', 'a', 'm', 'e', 's']);
        assert("page"@ =~= seq!['p', 'a', 'g', 'e']);
        assert("per_page"@ =~= seq!['p', 'e', 'r', '_', 'p', 'a', 'g', 'e']);
        assert("sort_id"@ =~= seq!['s', 'o', 'r', 't', '_', 'i', 'd']);
        assert("Invalid"@ =~= seq!['I', 'n', 'v', 'a', 'l', 'i', 'd']);
        assert("fields"@.len() == 6);
        assert("filter_ids"@.len() == 10);
        assert("filter_usernames"@.len() == 16);
        assert("page"@.len() == 4);
        assert("per_page"@.len() == 8);
        assert("sort_id"@.len() == 7);
        assert("Invalid"@.len() == 7);
        let keys = Self::spec_keys();
        assert forall|k: Self| k.spec_is_valid() <==> #[trigger] keys.contains(k) by {
            match k {
                Users::fields => assert(keys[0] == k),
                Users::filter_ids => assert(keys[1] == k),
                Users::filter_usernames => assert(keys[2] == k),
                Users::page => assert(keys[3] == k),
                Users::per_page => assert(keys[4] == k),
                Users::sort_id => assert(keys[5] == k),
                Users::Invalid => assert(forall|i: int| 0 <= i < keys.len() ==> keys[i] != k),
            }
        }
    }
}

/// Query keys accepted by `/v1/following`; `Invalid` stands for any other name.
#[allow(non_camel_case_types)]
#[derive(Clone, Copy, Debug, PartialEq, Eq, Structural)]
pub enum Following {
    fields,
    filter_user_id,
    filter_username,
    page,
    per_page,
    sort_id,
    Invalid,
}

impl IsValid for Following {
    open spec fn spec_is_valid(&self) -> bool {
        !(*self is Invalid)
    }

    fn is_valid(&self) -> (r: bool) {
        match self {
            Following::Invalid => false,
            _ => true,
        }
    }
}

impl QueryName for Following {
    open spec fn spec_name(&self) -> Seq<char> {
        match *self {
            Following::fields => "fields"@,
            Following::filter_user_id => "filter_user_id"@,
            Following::filter_username => "filter_username"@,
            Following::page => "page"@,
            Following::per_page => "per_page"@,
            Following::sort_id => "sort_id"@,
            Following::Invalid => "Invalid"@,
        }
    }

    fn name(&self) -> (r: String) {
        match self {
            Following::fields => "fields".to_owned(),
            Following::filter_user_id => "filter_user_id".to_owned(),
            Following::filter_username => "filter_username".to_owned(),
            Following::page => "page".to_owned(),
            Following::per_page => "per_page".to_owned(),
            Following::sort_id => "sort_id".to_owned(),
            Following::Invalid => "Invalid".to_owned(),
        }
    }
}

impl ParamKey for Following {
    open spec fn spec_keys() -> Seq<Self> {
        seq![
            Following::fields,
            Following::filter_user_id,
            Following::filter_username,
            Following::page,
            Following::per_page,
            Following::sort_id,
        ]
    }

    open spec fn spec_invalid() -> Self {
        Following::Invalid
    }

    fn keys() -> (r: Vec<Self>) {
        vec![
            Following::fields,
            Following::filter_user_id,
            Following::filter_username,
            Following::page,
            Following::per_page,
            Following::sort_id,
        ]
    }

    fn invalid() -> (r: Self) {
        Following::Invalid
    }

    proof fn lemma_key_set() {
        reveal_strlit("fields");
        reveal_strlit("filter_user_id");
        reveal_strlit("filter_username");
        reveal_strlit("page");
        reveal_strlit("per_page");
        reveal_strlit("sort_id");
        reveal_strlit("Invalid");
        assert("fields"@ =~= seq!['f', 'i', 'e', 'l', 'd', 's']);
        assert("filter_user_id"@ =~= seq!['f', 'i', 'l', 't', 'e', 'r', '_', 'u', 's', 'e', 'r', '_', 'i', 'd']);
        assert("filter_username"@ =~= seq!['f', 'i', 'l', 't', 'e', 'r', '_', 'u', 's', 'e', 'r', 'n', 'a', 'm', 'e']);
        assert("page"@ =~= seq!['p', 'a', 'g', 'e']);
        assert("per_page"@ =~= seq!['p', 'e', 'r', '_', 'p', 'a', 'g', 'e']);
        assert("sort_id"@ =~= seq!['s', 'o', 'r', 't', '_', 'i', 'd']);
        assert("Invalid"@ =~= seq!['I', 'n', 'v', 'a', 'l', 'i', 'd']);
        assert("fields"@.len() == 6);
        assert("filter_user_id"@.len() == 14);
        assert("filter_username"@.len() == 15);
        assert("page"@.len() == 4);
        assert("per_page"@.len() == 8);
        assert("sort_id"@.len() == 7);
        assert("Invalid"@.len() == 7);
        let keys = Self::spec_keys();
        assert forall|k: Self| k.spec_is_valid() <==> #[trigger] keys.contains(k) by {
            match k {
                Following::fields => assert(keys[0] == k),
                Following::filter_user_id => assert(keys[1] == k),
                Following::filter_username => assert(keys[2] == k),
                Following::page => assert(keys[3] == k),
                Following::per_page => assert(keys[4] == k),
                Following::sort_id => assert(keys[5] == k),
                Following::Invalid => assert(forall|i: int| 0 <= i < keys.len() ==> keys[i] != k),
            }
        }
    }
}

/// Query keys accepted by `/v1/followers`; `Invalid` stands for any other name.
#[allow(non_camel_case_types)]
#[derive(Clone, Copy, Debug, PartialEq, Eq, Structural)]
pub enum Followers {
    fields,
    filter_user_id,
    filter_username,
    page,
    per_page,
    sort_id,
    Invalid,
}

impl IsValid for Followers {
    open spec fn spec_is_valid(&self) -> bool {
        !(*self is Invalid)
    }

    fn is_valid(&self) -> (r: bool) {
        match self {
            Followers::Invalid => false,
            _ => true,
        }
    }
}

impl QueryName for Followers {
    open spec fn spec_name(&self) -> Seq<char> {
        match *self {
            Followers::fields => "fields"@,
            Followers::filter_user_id => "filter_user_id"@,
            Followers::filter_username => "filter_username"@,
            Followers::page => "page"@,
            Followers::per_page => "per_page"@,
            Followers::sort_id => "sort_id"@,
            Followers::Invalid => "Invalid"@,
        }
    }

    fn name(&self) -> (r: String) {
        match self {
            Followers::fields => "fields".to_owned(),
            Followers::filter_user_id => "filter_user_id".to_owned(),
            Followers::filter_username => "filter_username".to_owned(),
            Followers::page => "page".to_owned(),
            Followers::per_page => "per_page".to_owned(),
            Followers::sort_id => "sort_id".to_owned(),
            Followers::Invalid => "Invalid".to_owned(),
        }
    }
}

impl ParamKey for Followers {
    open spec fn spec_keys() -> Seq<Self> {
        seq![
            Followers::fields,
            Followers::filter_user_id,
            Followers::filter_username,
            Followers::page,
            Followers::per_page,
            Followers::sort_id,
        ]
    }

    open spec fn spec_invalid() -> Self {
        Followers::Invalid
    }

    fn keys() -> (r: Vec<Self>) {
        vec![
            Followers::fields,
            Followers::filter_user_id,
            Followers::filter_username,
            Followers::page,
            Followers::per_page,
            Followers::sort_id,
        ]
    }

    fn invalid() -> (r: Self) {
        Followers::Invalid
    }

    proof fn lemma_key_set() {
        reveal_strlit("fields");
        reveal_strlit("filter_user_id");
        reveal_strlit("filter_username");
        reveal_strlit("page");
        reveal_strlit("per_page");
        reveal_strlit("sort_id");
        reveal_strlit("Invalid");
        assert("fields"@ =~= seq!['f', 'i', 'e', 'l', 'd', 's']);
        assert("filter_user_id"@ =~= seq!['f', 'i', 'l', 't', 'e', 'r', '_', 'u', 's', 'e', 'r', '_', 'i', 'd']);
        assert("filter_username"@ =~= seq!['f', 'i', 'l', 't', 'e', 'r', '_', 'u', 's', 'e', 'r', 'n', 'a', 'm', 'e']);
        assert("page"@ =~= seq!['p', 'a', 'g', 'e']);
        assert("per_page"@ =~= seq!['p', 'e', 'r', '_', 'p', 'a', 'g', 'e']);
        assert("sort_id"@ =~= seq!['s', 'o', 'r', 't', '_', 'i', 'd']);
        assert("Invalid"@ =~= seq!['I', 'n', 'v', 'a', 'l', 'i', 'd']);
        assert("fields"@.len() == 6);
        assert("filter_user_id"@.len() == 14);
        assert("filter_username"@.len() == 15);
        assert("page"@.len() == 4);
        assert("per_page"@.len() == 8);
        assert("sort_id"@.len() == 7);
        assert("Invalid"@.len() == 7);
        let keys = Self::spec_keys();
        assert forall|k: Self| k.spec_is_valid() <==> #[trigger] keys.contains(k) by {
            match k {
                Followers::fields => assert(keys[0] == k),
                Followers::filter_user_id => assert(keys[1] == k),
                Followers::filter_username => assert(keys[2] == k),
                Followers::page => assert(keys[3] == k),
                Followers::per_page => assert(keys[4] == k),
                Followers::sort_id => assert(keys[5] == k),
                Followers::Invalid => assert(forall|i: int| 0 <= i < keys.len() ==> keys[i] != k),
            }
        }
    }
}

/// Query keys accepted by `/v1/activities`; `Invalid` stands for any other name.
#[allow(non_camel_case_types)]
#[derive(Clone, Copy, Debug, PartialEq, Eq, Structural)]
pub enum Activities {
    fields,
    filter_users_ids,
    filter_username,
    page,
    per_page,
    sort_id,
    Invalid,
}

impl IsValid for Activities {
    open spec fn spec_is_valid(&self) -> bool {
        !(*self is Invalid)
    }

    fn is_valid(&self) -> (r: bool) {
        match self {
            Activities::Invalid => false,
            _ => true,
        }
    }
}

impl QueryName for Activities {
    open spec fn spec_name(&self) -> Seq<char> {
        match *self {
            Activities::fields => "fields"@,
            Activities::filter_users_ids => "filter_users_ids"@,
            Activities::filter_username => "filter_username"@,
            Activities::page => "page"@,
            Activities::per_page => "per_page"@,
            Activities::sort_id => "sort_id"@,
            Activities::Invalid => "Invalid"@,
        }
    }

    fn name(&self) -> (r: String) {
        match self {
            Activities::fields => "fields".to_owned(),
            Activities::filter_users_ids => "filter_users_ids".to_owned(),
            Activities::filter_username => "filter_username".to_owned(),
            Activities::page => "page".to_owned(),
            Activities::per_page => "per_page".to_owned(),
            Activities::sort_id => "sort_id".to_owned(),
            Activities::Invalid => "Invalid".to_owned(),
        }
    }
}

impl ParamKey for Activities {
    open spec fn spec_keys() -> Seq<Self> {
        seq![
            Activities::fields,
            Activities::filter_users_ids,
            Activities::filter_username,
            Activities::page,
            Activities::per_page,
            Activities::sort_id,
        ]
    }

    open spec fn spec_invalid() -> Self {
        Activities::Invalid
    }

    fn keys() -> (r: Vec<Self>) {
        vec![
            Activities::fields,
            Activities::filter_users_ids,
            Activities::filter_username,
            Activities::page,
            Activities::per_page,
            Activities::sort_id,
        ]
    }

    fn invalid() -> (r: Self) {
        Activities::Invalid
    }

    proof fn lemma_key_set() {
        reveal_strlit("fields");
        reveal_strlit("filter_users_ids");
        reveal_strlit("filter_username");
        reveal_strlit("page");
        reveal_strlit("per_page");
        reveal_strlit("sort_id");
        reveal_strlit("Invalid");
        assert("fields"@ =~= seq!['f', 'i', 'e', 'l', 'd', 's']);
        assert("filter_users_ids"@ =~= seq!['f', 'i', 'l', 't', 'e', 'r', '_', 'u', 's', 'e', 'r', 's', '_', 'i', 'd', 's']);
        assert("filter_username"@ =~= seq!['f', 'i', 'l', 't', 'e', 'r', '_', 'u', 's', 'e', 'r', 'n', 'a', 'm', 'e']);
        assert("page"@ =~= seq!['p', 'a', 'g', 'e']);
        assert("per_page"@ =~= seq!['p', 'e', 'r', '_', 'p', 'a', 'g', 'e']);
        assert("sort_id"@ =~= seq!['s', 'o', 'r', 't', '_', 'i', 'd']);
        assert("Invalid"@ =~= seq!['I', 'n', 'v', 'a', 'l', 'i', 'd']);
        assert("fields"@.len() == 6);
        assert("filter_users_ids"@.len() == 16);
        assert("filter_username"@.len() == 15);
        assert("page"@.len() == 4);
        assert("per_page"@.len() == 8);
        assert("sort_id"@.len() == 7);
        assert("Invalid"@.len() == 7);
        let keys = Self::spec_keys();
        assert forall|k: Self| k.spec_is_valid() <==> #[trigger] keys.contains(k) by {
            match k {
                Activities::fields => assert(keys[0] == k),
                Activities::filter_users_ids => assert(keys[1] == k),
                Activities::filter_username => assert(keys[2] == k),
                Activities::page => assert(keys[3] == k),
                Activities::per_page => assert(keys[4] == k),
                Activities::sort_id => assert(keys[5] == k),
                Activities::Invalid => assert(forall|i: int| 0 <= i < keys.len() ==> keys[i] != k),
            }
        }
    }
}

/// Query keys accepted by `/v1/me`; `Invalid` stands for any other name.
#[allow(non_camel_case_types)]
#[derive(Clone, Copy, Debug, PartialEq, Eq, Structural)]
pub enum Me {
    fields,
    Invalid,
}

impl IsValid for Me {
    open spec fn spec_is_valid(&self) -> bool {
        !(*self is Invalid)
    }

    fn is_valid(&self) -> (r: bool) {
        match self {
            Me::Invalid => false,
            _ => true,
        }
    }
}

impl QueryName for Me {
    open spec fn spec_name(&self) -> Seq<char> {
        match *self {
            Me::fields => "fields"@,
            Me::Invalid => "Invalid"@,
        }
    }

    fn name(&self) -> (r: String) {
        match self {
            Me::fields => "fields".to_owned(),
            Me::Invalid => "Invalid".to_owned(),
        }
    }
}

impl ParamKey for Me {
    open spec fn spec_keys() -> Seq<Self> {
        seq![
            Me::fields,
        ]
    }

    open spec fn spec_invalid() -> Self {
        Me::Invalid
    }

    fn keys() -> (r: Vec<Self>) {
        vec![
            Me::fields,
        ]
    }

    fn invalid() -> (r: Self) {
        Me::Invalid
    }

    proof fn lemma_key_set() {
        reveal_strlit("fields");
        reveal_strlit("Invalid");
        assert("fields"@ =~= seq!['f', 'i', 'e', 'l', 'd', 's']);
        assert("Invalid"@ =~= seq!['I', 'n', 'v', 'a', 'l', 'i', 'd']);
        assert("fields"@.len() == 6);
        assert("Invalid"@.len() == 7);
        let keys = Self::spec_keys();
        assert forall|k: Self| k.spec_is_valid() <==> #[trigger] keys.contains(k) by {
            match k {
                Me::fields => assert(keys[0] == k),
                Me::Invalid => assert(forall|i: int| 0 <= i < keys.len() ==> keys[i] != k),
            }
        }
    }
}

/// Query keys accepted by `/v1/me/reviews`; `Invalid` stands for any other name.
#[allow(non_camel_case_types)]
#[derive(Clone, Copy, Debug, PartialEq, Eq, Structural)]
pub enum MeReviews {
    work_id,
    title,
    body,
    rating_animation_state,
    rating_music_state,
    rating_story_state,
    rating_character_state,
    rating_overall_state,
    share_twitter,
    share_facebook,
    Invalid,
}

impl IsValid for MeReviews {
    open spec fn spec_is_valid(&self) -> bool {
        !(*self is Invalid)
    }

    fn is_valid(&self) -> (r: bool) {
        match self {
            MeReviews::Invalid => false,
            _ => true,
        }
    }
}

impl QueryName for MeReviews {
    open spec fn spec_name(&self) -> Seq<char> {
        match *self {
            MeReviews::work_id => "work_id"@,
            MeReviews::title => "title"@,
            MeReviews::body => "body"@,
            MeReviews::rating_animation_state => "rating_animation_state"@,
            MeReviews::rating_music_state => "rating_music_state"@,
            MeReviews::rating_story_state => "rating_story_state"@,
            MeReviews::rating_character_state => "rating_character_state"@,
            MeReviews::rating_overall_state => "rating_overall_state"@,
            MeReviews::share_twitter => "share_twitter"@,
            MeReviews::share_facebook => "share_facebook"@,
            MeReviews::Invalid => "Invalid"@,
        }
    }

    fn name(&self) -> (r: String) {
        match self {
            MeReviews::work_id => "work_id".to_owned(),
            MeReviews::title => "title".to_owned(),
            MeReviews::body => "body".to_owned(),
            MeReviews::rating_animation_state => "rating_animation_state".to_owned(),
            MeReviews::rating_music_state => "rating_music_state".to_owned(),
            MeReviews::rating_story_state => "rating_story_state".to_owned(),
            MeReviews::rating_character_state => "rating_character_state".to_owned(),
            MeReviews::rating_overall_state => "rating_overall_state".to_owned(),
            MeReviews::share_twitter => "share_twitter".to_owned(),
            MeReviews::share_facebook => "share_facebook".to_owned(),
            MeReviews::Invalid => "Invalid".to_owned(),
        }
    }
}

impl ParamKey for MeReviews {
    open spec fn spec_keys() -> Seq<Self> {
        seq![
            MeReviews::work_id,
            MeReviews::title,
            MeReviews::body,
            MeReviews::rating_animation_state,
            MeReviews::rating_music_state,
            MeReviews::rating_story_state,
            MeReviews::rating_character_state,
            MeReviews::rating_overall_state,
            MeReviews::share_twitter,
            MeReviews::share_facebook,
        ]
    }

    open spec fn spec_invalid() -> Self {
        MeReviews::Invalid
    }

    fn keys() -> (r: Vec<Self>) {
        vec![
            MeReviews::work_id,
            MeReviews::title,
            MeReviews::body,
            MeReviews::rating_animation_state,
            MeReviews::rating_music_state,
            MeReviews::rating_story_state,
            MeReviews::rating_character_state,
            MeReviews::rating_overall_state,
            MeReviews::share_twitter,
            MeReviews::share_facebook,
        ]
    }

    fn invalid() -> (r: Self) {
        MeReviews::Invalid
    }

    proof fn lemma_key_set() {
        reveal_strlit("work_id");
        reveal_strlit("title");
        reveal_strlit("body");
        reveal_strlit("rating_animation_state");
        reveal_strlit("rating_music_state");
        reveal_strlit("rating_story_state");
        reveal_strlit("rating_character_state");
        reveal_strlit("rating_overall_state");
        reveal_strlit("share_twitter");
        reveal_strlit("share_facebook");
        reveal_strlit("Invalid");
        assert("work_id"@ =~= seq!['w', 'o', 'r', 'k', '_', 'i', 'd']);
        assert("title"@ =~= seq!['t', 'i', 't', 'l', 'e']);
        assert("body"@ =~= seq!['b', 'o', 'd', 'y']);
        assert("rating_animation_state"@ =~= seq!['r', 'a', 't', 'i', 'n', 'g', '_', 'a', 'n', 'i', 'm', 'a', 't', 'i', 'o', 'n', '_', 's', 't', 'a', 't', 'e']);
        assert("rating_music_state"@ =~= seq!['r', 'a', 't', 'i', 'n', 'g', '_', 'm', 'u', 's', 'i', 'c', '_', 's', 't', 'a', 't', 'e']);
        assert("rating_story_state"@ =~= seq!['r', 'a', 't', 'i', 'n', 'g', '_', 's', 't', 'o', 'r', 'y', '_', 's', 't', 'a', 't', 'e']);
        assert("rating_character_state"@ =~= seq!['r', 'a', 't', 'i', 'n', 'g', '_', 'c', 'h', 'a', 'r', 'a', 'c', 't', 'e', 'r', '_', 's', 't', 'a', 't', 'e']);
        assert("rating_overall_state"@ =~= seq!['r', 'a', 't', 'i', 'n', 'g', '_', 'o', 'v', 'e', 'r', 'a', 'l', 'l', '_', 's', 't', 'a', 't', 'e']);
        assert("share_twitter"@ =~= seq!['s', 'h', 'a', 'r', 'e', '_', 't', 'w', 'i', 't', 't', 'e', 'r']);
        assert("share_facebook"@ =~= seq!['s', 'h', 'a', 'r', 'e', '_', 'f', 'a', 'c', 'e', 'b', 'o', 'o', 'k']);
        assert("Invalid"@ =~= seq!['I', 'n', 'v', 'a', 'l', 'i', 'd']);
        assert("work_id"@.len() == 7);
        assert("title"@.len() == 5);
        assert("body"@.len() == 4);
        assert("rating_animation_state"@.len() == 22);
        assert("rating_music_state"@.len() == 18);
        assert("rating_story_state"@.len() == 18);
        assert("rating_character_state"@.len() == 22);
        assert("rating_overall_state"@.len() == 20);
        assert("share_twitter"@.len() == 13);
        assert("share_facebook"@.len() == 14);
        assert("Invalid"@.len() == 7);
        let keys = Self::spec_keys();
        assert forall|k: Self| k.spec_is_valid() <==> #[trigger] keys.contains(k) by {
            match k {
                MeReviews::work_id => assert(keys[0] == k),
                MeReviews::title => assert(keys[1] == k),
                MeReviews::body => assert(keys[2] == k),
                MeReviews::rating_animation_state => assert(keys[3] == k),
                MeReviews::rating_music_state => assert(keys[4] == k),
                MeReviews::rating_story_state => assert(keys[5] == k),
                MeReviews::rating_character_state => assert(keys[6] == k),
                MeReviews::rating_overall_state => assert(keys[7] == k),
                MeReviews::share_twitter => assert(keys[8] == k),
                MeReviews::share_facebook => assert(keys[9] == k),
                MeReviews::Invalid => assert(forall|i: int| 0 <= i < keys.len() ==> keys[i] != k),
            }
        }
    }
}

/// Query keys accepted by `/v1/me/following_activities`; `Invalid` stands for any other name.
#[allow(non_camel_case_types)]
#[derive(Clone, Copy, Debug, PartialEq, Eq, Structural)]
pub enum MeFollowing_activities {
    fields,
    filter_actions,
    filter_muted,
    page,
    per_page,
    sort_id,
    Invalid,
}

impl IsValid for MeFollowing_activities {
    open spec fn spec_is_valid(&self) -> bool {
        !(*self is Invalid)
    }

    fn is_valid(&self) -> (r: bool) {
        match self {
            MeFollowing_activities::Invalid => false,
            _ => true,
        }
    }
}

impl QueryName for MeFollowing_activities {
    open spec fn spec_name(&self) -> Seq<char> {
        match *self {
            MeFollowing_activities::fields => "fields"@,
            MeFollowing_activities::filter_actions => "filter_actions"@,
            MeFollowing_activities::filter_muted => "filter_muted"@,
            MeFollowing_activities::page => "page"@,
            MeFollowing_activities::per_page => "per_page"@,
            MeFollowing_activities::sort_id => "sort_id"@,
            MeFollowing_activities::Invalid => "Invalid"@,
        }
    }

    fn name(&self) -> (r: String) {
        match self {
            MeFollowing_activities::fields => "fields".to_owned(),
            MeFollowing_activities::filter_actions => "filter_actions".to_owned(),
            MeFollowing_activities::filter_muted => "filter_muted".to_owned(),
            MeFollowing_activities::page => "page".to_owned(),
            MeFollowing_activities::per_page => "per_page".to_owned(),
            MeFollowing_activities::sort_id => "sort_id".to_owned(),
            MeFollowing_activities::Invalid => "Invalid".to_owned(),
        }
    }
}

impl ParamKey for MeFollowing_activities {
    open spec fn spec_keys() -> Seq<Self> {
        seq![
            MeFollowing_activities::fields,
            MeFollowing_activities::filter_actions,
            MeFollowing_activities::filter_muted,
            MeFollowing_activities::page,
            MeFollowing_activities::per_page,
            MeFollowing_activities::sort_id,
        ]
    }

    open spec fn spec_invalid() -> Self {
        MeFollowing_activities::Invalid
    }

    fn keys() -> (r: Vec<Self>) {
        vec![
            MeFollowing_activities::fields,
            MeFollowing_activities::filter_actions,
            MeFollowing_activities::filter_muted,
            MeFollowing_activities::page,
            MeFollowing_activities::per_page,
            MeFollowing_activities::sort_id,
        ]
    }

    fn invalid() -> (r: Self) {
        MeFollowing_activities::Invalid
    }

    proof fn lemma_key_set() {
        reveal_strlit("fields");
        reveal_strlit("filter_actions");
        reveal_strlit("filter_muted");
        reveal_strlit("page");
        reveal_strlit("per_page");
        reveal_strlit("sort_id");
        reveal_strlit("Invalid");
        assert("fields"@ =~= seq!['f', 'i', 'e', 'l', 'd', 's']);
        assert("filter_actions"@ =~= seq!['f', 'i', 'l', 't', 'e', 'r', '_', 'a', 'c', 't', 'i', 'o', 'n', 's']);
        assert("filter_muted"@ =~= seq!['f', 'i', 'l', 't', 'e', 'r', '_', 'm', 'u', 't', 'e', 'd']);
        assert("page"@ =~= seq!['p', 'a', 'g', 'e']);
        assert("per_page"@ =~= seq!['p', 'e', 'r', '_', 'p', 'a', 'g', 'e']);
        assert("sort_id"@ =~= seq!['s', 'o', 'r', 't', '_', 'i', 'd']);
        assert("Invalid"@ =~= seq!['I', 'n', 'v', 'a', 'l', 'i', 'd']);
        assert("fields"@.len() == 6);
        assert("filter_actions"@.len() == 14);
        assert("filter_muted"@.len() == 12);
        assert("page"@.len() == 4);
        assert("per_page"@.len() == 8);
        assert("sort_id"@.len() == 7);
        assert("Invalid"@.len() == 7);
        let keys = Self::spec_keys();
        assert forall|k: Self| k.spec_is_valid() <==> #[trigger] keys.contains(k) by {
            match k {
                MeFollowing_activities::fields => assert(keys[0] == k),
                MeFollowing_activities::filter_actions => assert(keys[1] == k),
                MeFollowing_activities::filter_muted => assert(keys[2] == k),
                MeFollowing_activities::page => assert(keys[3] == k),
                MeFollowing_activities::per_page => assert(keys[4] == k),
                MeFollowing_activities::sort_id => assert(keys[5] == k),
                MeFollowing_activities::Invalid => assert(forall|i: int| 0 <= i < keys.len() ==> keys[i] != k),
            }
        }
    }
}

/// Query keys accepted by `/v1/works`; `Invalid` stands for any other name.
#[allow(non_camel_case_types)]
#[derive(Clone, Copy, Debug, PartialEq, Eq, Structural)]
pub enum Works {
    fields,
    filter_ids,
    filter_season,
    filter_title,
    page,
    per_page,
    sort_id,
    sort_season,
    sort_watchers_count,
    Invalid,
}

impl IsValid for Works {
    open spec fn spec_is_valid(&self) -> bool {
        !(*self is Invalid)
    }

    fn is_valid(&self) -> (r: bool) {
        match self {
            Works::Invalid => false,
            _ => true,
        }
    }
}

impl QueryName for Works {
    open spec fn spec_name(&self) -> Seq<char> {
        match *self {
            Works::fields => "fields"@,
            Works::filter_ids => "filter_ids"@,
            Works::filter_season => "filter_season"@,
            Works::filter_title => "filter_title"@,
            Works::page => "page"@,
            Works::per_page => "per_page"@,
            Works::sort_id => "sort_id"@,
            Works::sort_season => "sort_season"@,
            Works::sort_watchers_count => "sort_watchers_count"@,
            Works::Invalid => "Invalid"@,
        }
    }

    fn name(&self) -> (r: String) {
        match self {
            Works::fields => "fields".to_owned(),
            Works::filter_ids => "filter_ids".to_owned(),
            Works::filter_season => "filter_season".to_owned(),
            Works::filter_title => "filter_title".to_owned(),
            Works::page => "page".to_owned(),
            Works::per_page => "per_page".to_owned(),
            Works::sort_id => "sort_id".to_owned(),
            Works::sort_season => "sort_season".to_owned(),
            Works::sort_watchers_count => "sort_watchers_count".to_owned(),
            Works::Invalid => "Invalid".to_owned(),
        }
    }
}

impl ParamKey for Works {
    open spec fn spec_keys() -> Seq<Self> {
        seq![
            Works::fields,
            Works::filter_ids,
            Works::filter_season,
            Works::filter_title,
            Works::page,
            Works::per_page,
            Works::sort_id,
            Works::sort_season,
            Works::sort_watchers_count,
        ]
    }

    open spec fn spec_invalid() -> Self {
        Works::Invalid
    }

    fn keys() -> (r: Vec<Self>) {
        vec![
            Works::fields,
            Works::filter_ids,
            Works::filter_season,
            Works::filter_title,
            Works::page,
            Works::per_page,
            Works::sort_id,
            Works::sort_season,
            Works::sort_watchers_count,
        ]
    }

    fn invalid() -> (r: Self) {
        Works::Invalid
    }

    proof fn lemma_key_set() {
        reveal_strlit("fields");
        reveal_strlit("filter_ids");
        reveal_strlit("filter_season");
        reveal_strlit("filter_title");
        reveal_strlit("page");
        reveal_strlit("per_page");
        reveal_strlit("sort_id");
        reveal_strlit("sort_season");
        reveal_strlit("sort_watchers_count");
        reveal_strlit("Invalid");
        assert("fields"@ =~= seq!['f', 'i', 'e', 'l', 'd', 's']);
        assert("filter_ids"@ =~= seq!['f', 'i', 'l', 't', 'e', 'r', '_', 'i', 'd', 's']);
        assert("filter_season"@ =~= seq!['f', 'i', 'l', 't', 'e', 'r', '_', 's', 'e', 'a', 's', 'o', 'n']);
        assert("filter_title"@ =~= seq!['f', 'i', 'l', 't', 'e', 'r', '_', 't', 'i', 't', 'l', 'e']);
        assert("page"@ =~= seq!['p', 'a', 'g', 'e']);
        assert("per_page"@ =~= seq!['p', 'e', 'r', '_', 'p', 'a', 'g', 'e']);
        assert("sort_id"@ =~= seq!['s', 'o', 'r', 't', '_', 'i', 'd']);
        assert("sort_season"@ =~= seq!['s', 'o', 'r', 't', '_', 's', 'e', 'a', 's', 'o', 'n']);
        assert("sort_watchers_count"@ =~= seq!['s', 'o', 'r', 't', '_', 'w', 'a', 't', 'c', 'h', 'e', 'r', 's', '_', 'c', 'o', 'u', 'n', 't']);
        assert("Invalid"@ =~= seq!['I', 'n', 'v', 'a', 'l', 'i', 'd']);
        assert("fields"@.len() == 6);
        assert("filter_ids"@.len() == 10);
        assert("filter_season"@.len() == 13);
        assert("filter_title"@.len() == 12);
        assert("page"@.len() == 4);
        assert("per_page"@.len() == 8);
        assert("sort_id"@.len() == 7);
        assert("sort_season"@.len() == 11);
        assert("sort_watchers_count"@.len() == 19);
        assert("Invalid"@.len() == 7);
        let keys = Self::spec_keys();
        assert forall|k: Self| k.spec_is_valid() <==> #[trigger] keys.contains(k) by {
            match k {
                Works::fields => assert(keys[0] == k),
                Works::filter_ids => assert(keys[1] == k),
                Works::filter_season => assert(keys[2] == k),
                Works::filter_title => assert(keys[3] == k),
                Works::page => assert(keys[4] == k),
                Works::per_page => assert(keys[5] == k),
                Works::sort_id => assert(keys[6] == k),
                Works::sort_season => assert(keys[7] == k),
                Works::sort_watchers_count => assert(keys[8] == k),
                Works::Invalid => assert(forall|i: int| 0 <= i < keys.len() ==> keys[i] != k),
            }
        }
    }
}

/// Query keys accepted by `/v1/episodes`; `Invalid` stands for any other name.
#[allow(non_camel_case_types)]
#[derive(Clone, Copy, Debug, PartialEq, Eq, Structural)]
pub enum Episodes {
    fields,
    filter_ids,
    filter_work_id,
    page,
    per_page,
    sort_id,
    sort_sort_number,
    Invalid,
}

impl IsValid for Episodes {
    open spec fn spec_is_valid(&self) -> bool {
        !(*self is Invalid)
    }

    fn is_valid(&self) -> (r: bool) {
        match self {
            Episodes::Invalid => false,
            _ => true,
        }
    }
}

impl QueryName for Episodes {
    open spec fn spec_name(&self) -> Seq<char> {
        match *self {
            Episodes::fields => "fields"@,
            Episodes::filter_ids => "filter_ids"@,
            Episodes::filter_work_id => "filter_work_id"@,
            Episodes::page => "page"@,
            Episodes::per_page => "per_page"@,
            Episodes::sort_id => "sort_id"@,
            Episodes::sort_sort_number => "sort_sort_number"@,
            Episodes::Invalid => "Invalid"@,
        }
    }

    fn name(&self) -> (r: String) {
        match self {
            Episodes::fields => "fields".to_owned(),
            Episodes::filter_ids => "filter_ids".to_owned(),
            Episodes::filter_work_id => "filter_work_id".to_owned(),
            Episodes::page => "page".to_owned(),
            Episodes::per_page => "per_page".to_owned(),
            Episodes::sort_id => "sort_id".to_owned(),
            Episodes::sort_sort_number => "sort_sort_number".to_owned(),
            Episodes::Invalid => "Invalid".to_owned(),
        }
    }
}

impl ParamKey for Episodes {
    open spec fn spec_keys() -> Seq<Self> {
        seq![
            Episodes::fields,
            Episodes::filter_ids,
            Episodes::filter_work_id,
            Episodes::page,
            Episodes::per_page,
            Episodes::sort_id,
            Episodes::sort_sort_number,
        ]
    }

    open spec fn spec_invalid() -> Self {
        Episodes::Invalid
    }

    fn keys() -> (r: Vec<Self>) {
        vec![
            Episodes::fields,
            Episodes::filter_ids,
            Episodes::filter_work_id,
            Episodes::page,
            Episodes::per_page,
            Episodes::sort_id,
            Episodes::sort_sort_number,
        ]
    }

    fn invalid() -> (r: Self) {
        Episodes::Invalid
    }

    proof fn lemma_key_set() {
        reveal_strlit("fields");
        reveal_strlit("filter_ids");
        reveal_strlit("filter_work_id");
        reveal_strlit("page");
        reveal_strlit("per_page");
        reveal_strlit("sort_id");
        reveal_strlit("sort_sort_number");
        reveal_strlit("Invalid");
        assert("fields"@ =~= seq!['f', 'i', 'e', 'l', 'd', 's']);
        assert("filter_ids"@ =~= seq!['f', 'i', 'l', 't', 'e', 'r', '_', 'i', 'd', 's']);
        assert("filter_work_id"@ =~= seq!['f', 'i', 'l', 't', 'e', 'r', '_', 'w', 'o', 'r', 'k', '_', 'i', 'd']);
        assert("page"@ =~= seq!['p', 'a', 'g', 'e']);
        assert("per_page"@ =~= seq!['p', 'e', 'r', '_', 'p', 'a', 'g', 'e']);
        assert("sort_id"@ =~= seq!['s', 'o', 'r', 't', '_', 'i', 'd']);
        assert("sort_sort_number"@ =~= seq!['s', 'o', 'r', 't', '_', 's', 'o', 'r', 't', '_', 'n', 'u', 'm', 'b', 'e', 'r']);
        assert("Invalid"@ =~= seq!['I', 'n', 'v', 'a', 'l', 'i', 'd']);
        assert("fields"@.len() == 6);
        assert("filter_ids"@.len() == 10);
        assert("filter_work_id"@.len() == 14);
        assert("page"@.len() == 4);
        assert("per_page"@.len() == 8);
        assert("sort_id"@.len() == 7);
        assert("sort_sort_number"@.len() == 16);
        assert("Invalid"@.len() == 7);
        let keys = Self::spec_keys();
        assert forall|k: Self| k.spec_is_valid() <==> #[trigger] keys.contains(k) by {
            match k {
                Episodes::fields => assert(keys[0] == k),
                Episodes::filter_ids => assert(keys[1] == k),
                Episodes::filter_work_id => assert(keys[2] == k),
                Episodes::page => assert(keys[3] == k),
                Episodes::per_page => assert(keys[4] == k),
                Episodes::sort_id => assert(keys[5] == k),
                Episodes::sort_sort_number => assert(keys[6] == k),
                Episodes::Invalid => assert(forall|i: int| 0 <= i < keys.len() ==> keys[i] != k),
            }
        }
    }
}

/// Query keys accepted by `/v1/records`; `Invalid` stands for any other name.
#[allow(non_camel_case_types)]
#[derive(Clone, Copy, Debug, PartialEq, Eq, Structural)]
pub enum Records {
    fields,
    filter_ids,
    filter_episode_id,
    page,
    per_page,
    sort_id,
    sort_likes_count,
    Invalid,
}

impl IsValid for Records {
    open spec fn spec_is_valid(&self) -> bool {
        !(*self is Invalid)
    }

    fn is_valid(&self) -> (r: bool) {
        match self {
            Records::Invalid => false,
            _ => true,
        }
    }
}

impl QueryName for Records {
    open spec fn spec_name(&self) -> Seq<char> {
        match *self {
            Records::fields => "fields"@,
            Records::filter_ids => "filter_ids"@,
            Records::filter_episode_id => "filter_episode_id"@,
            Records::page => "page"@,
            Records::per_page => "per_page"@,
            Records::sort_id => "sort_id"@,
            Records::sort_likes_count => "sort_likes_count"@,
            Records::Invalid => "Invalid"@,
        }
    }

    fn name(&self) -> (r: String) {
        match self {
            Records::fields => "fields".to_owned(),
            Records::filter_ids => "filter_ids".to_owned(),
            Records::filter_episode_id => "filter_episode_id".to_owned(),
            Records::page => "page".to_owned(),
            Records::per_page => "per_page".to_owned(),
            Records::sort_id => "sort_id".to_owned(),
            Records::sort_likes_count => "sort_likes_count".to_owned(),
            Records::Invalid => "Invalid".to_owned(),
        }
    }
}

impl ParamKey for Records {
    open spec fn spec_keys() -> Seq<Self> {
        seq![
            Records::fields,
            Records::filter_ids,
            Records::filter_episode_id,
            Records::page,
            Records::per_page,
            Records::sort_id,
            Records::sort_likes_count,
        ]
    }

    open spec fn spec_invalid() -> Self {
        Records::Invalid
    }

    fn keys() -> (r: Vec<Self>) {
        vec![
            Records::fields,
            Records::filter_ids,
            Records::filter_episode_id,
            Records::page,
            Records::per_page,
            Records::sort_id,
            Records::sort_likes_count,
        ]
    }

    fn invalid() -> (r: Self) {
        Records::Invalid
    }

    proof fn lemma_key_set() {
        reveal_strlit("fields");
        reveal_strlit("filter_ids");
        reveal_strlit("filter_episode_id");
        reveal_strlit("page");
        reveal_strlit("per_page");
        reveal_strlit("sort_id");
        reveal_strlit("sort_likes_count");
        reveal_strlit("Invalid");
        assert("fields"@ =~= seq!['f', 'i', 'e', 'l', 'd', 's']);
        assert("filter_ids"@ =~= seq!['f', 'i', 'l', 't', 'e', 'r', '_', 'i', 'd', 's']);
        assert("filter_episode_id"@ =~= seq!['f', 'i', 'l', 't', 'e', 'r', '_', 'e', 'p', 'i', 's', 'o', 'd', 'e', '_', 'i', 'd']);
        assert("page"@ =~= seq!['p', 'a', 'g', 'e']);
        assert("per_page"@ =~= seq!['p', 'e', 'r', '_', 'p', 'a', 'g', 'e']);
        assert("sort_id"@ =~= seq!['s', 'o', 'r', 't', '_', 'i', 'd']);
        assert("sort_likes_count"@ =~= seq!['s', 'o', 'r', 't', '_', 'l', 'i', 'k', 'e', 's', '_', 'c', 'o', 'u', 'n', 't']);
        assert("Invalid"@ =~= seq!['I', 'n', 'v', 'a', 'l', 'i', 'd']);
        assert("fields"@.len() == 6);
        assert("filter_ids"@.len() == 10);
        assert("filter_episode_id"@.len() == 17);
        assert("page"@.len() == 4);
        assert("per_page"@.len() == 8);
        assert("sort_id"@.len() == 7);
        assert("sort_likes_count"@.len() == 16);
        assert("Invalid"@.len() == 7);
        let keys = Self::spec_keys();
        assert forall|k: Self| k.spec_is_valid() <==> #[trigger] keys.contains(k) by {
            match k {
                Records::fields => assert(keys[0] == k),
                Records::filter_ids => assert(keys[1] == k),
                Records::filter_episode_id => assert(keys[2] == k),
                Records::page => assert(keys[3] == k),
                Records::per_page => assert(keys[4] == k),
                Records::sort_id => assert(keys[5] == k),
                Records::sort_likes_count => assert(keys[6] == k),
                Records::Invalid => assert(forall|i: int| 0 <= i < keys.len() ==> keys[i] != k),
            }
        }
    }
}

/// Query keys accepted by `/v1/me/statuses`; `Invalid` stands for any other name.
#[allow(non_camel_case_types)]
#[derive(Clone, Copy, Debug, PartialEq, Eq, Structural)]
pub enum MeStatuses {
    work_id,
    kind,
    Invalid,
}

impl IsValid for MeStatuses {
    open spec fn spec_is_valid(&self) -> bool {
        !(*self is Invalid)
    }

    fn is_valid(&self) -> (r: bool) {
        match self {
            MeStatuses::Invalid => false,
            _ => true,
        }
    }
}

impl QueryName for MeStatuses {
    open spec fn spec_name(&self) -> Seq<char> {
        match *self {
            MeStatuses::work_id => "work_id"@,
            MeStatuses::kind => "kind"@,
            MeStatuses::Invalid => "Invalid"@,
        }
    }

    fn name(&self) -> (r: String) {
        match self {
            MeStatuses::work_id => "work_id".to_owned(),
            MeStatuses::kind => "kind".to_owned(),
            MeStatuses::Invalid => "Invalid".to_owned(),
        }
    }
}

impl ParamKey for MeStatuses {
    open spec fn spec_keys() -> Seq<Self> {
        seq![
            MeStatuses::work_id,
            MeStatuses::kind,
        ]
    }

    open spec fn spec_invalid() -> Self {
        MeStatuses::Invalid
    }

    fn keys() -> (r: Vec<Self>) {
        vec![
            MeStatuses::work_id,
            MeStatuses::kind,
        ]
    }

    fn invalid() -> (r: Self) {
        MeStatuses::Invalid
    }

    proof fn lemma_key_set() {
        reveal_strlit("work_id");
        reveal_strlit("kind");
        reveal_strlit("Invalid");
        assert("work_id"@ =~= seq!['w', 'o', 'r', 'k', '_', 'i', 'd']);
        assert("kind"@ =~= seq!['k', 'i', 'n', 'd']);
        assert("Invalid"@ =~= seq!['I', 'n', 'v', 'a', 'l', 'i', 'd']);
        assert("work_id"@.len() == 7);
        assert("kind"@.len() == 4);
        assert("Invalid"@.len() == 7);
        let keys = Self::spec_keys();
        assert forall|k: Self| k.spec_is_valid() <==> #[trigger] keys.contains(k) by {
            match k {
                MeStatuses::work_id => assert(keys[0] == k),
                MeStatuses::kind => assert(keys[1] == k),
                MeStatuses::Invalid => assert(forall|i: int| 0 <= i < keys.len() ==> keys[i] != k),
            }
        }
    }
}

/// Query keys accepted by `/v1/me/records`; `Invalid` stands for any other name.
#[allow(non_camel_case_types)]
#[derive(Clone, Copy, Debug, PartialEq, Eq, Structural)]
pub enum MeRecords {
    episode_id,
    comment,
    rating,
    share_twitter,
    share_facebook,
    Invalid,
}

impl IsValid for MeRecords {
    open spec fn spec_is_valid(&self) -> bool {
        !(*self is Invalid)
    }

    fn is_valid(&self) -> (r: bool) {
        match self {
            MeRecords::Invalid => false,
            _ => true,
        }
    }
}

impl QueryName for MeRecords {
    open spec fn spec_name(&self) -> Seq<char> {
        match *self {
            MeRecords::episode_id => "episode_id"@,
            MeRecords::comment => "comment"@,
            MeRecords::rating => "rating"@,
            MeRecords::share_twitter => "share_twitter"@,
            MeRecords::share_facebook => "share_facebook"@,
            MeRecords::Invalid => "Invalid"@,
        }
    }

    fn name(&self) -> (r: String) {
        match self {
            MeRecords::episode_id => "episode_id".to_owned(),
            MeRecords::comment => "comment".to_owned(),
            MeRecords::rating => "rating".to_owned(),
            MeRecords::share_twitter => "share_twitter".to_owned(),
            MeRecords::share_facebook => "share_facebook".to_owned(),
            MeRecords::Invalid => "Invalid".to_owned(),
        }
    }
}

impl ParamKey for MeRecords {
    open spec fn spec_keys() -> Seq<Self> {
        seq![
            MeRecords::episode_id,
            MeRecords::comment,
            MeRecords::rating,
            MeRecords::share_twitter,
            MeRecords::share_facebook,
        ]
    }

    open spec fn spec_invalid() -> Self {
        MeRecords::Invalid
    }

    fn keys() -> (r: Vec<Self>) {
        vec![
            MeRecords::episode_id,
            MeRecords::comment,
            MeRecords::rating,
            MeRecords::share_twitter,
            MeRecords::share_facebook,
        ]
    }

    fn invalid() -> (r: Self) {
        MeRecords::Invalid
    }

    proof fn lemma_key_set() {
        reveal_strlit("episode_id");
        reveal_strlit("comment");
        reveal_strlit("rating");
        reveal_strlit("share_twitter");
        reveal_strlit("share_facebook");
        reveal_strlit("Invalid");
        assert("episode_id"@ =~= seq!['e', 'p', 'i', 's', 'o', 'd', 'e', '_', 'i', 'd']);
        assert("comment"@ =~= seq!['c', 'o', 'm', 'm', 'e', 'n', 't']);
        assert("rating"@ =~= seq!['r', 'a', 't', 'i', 'n', 'g']);
        assert("share_twitter"@ =~= seq!['s', 'h', 'a', 'r', 'e', '_', 't', 'w', 'i', 't', 't', 'e', 'r']);
        assert("share_facebook"@ =~= seq!['s', 'h', 'a', 'r', 'e', '_', 'f', 'a', 'c', 'e', 'b', 'o', 'o', 'k']);
        assert("Invalid"@ =~= seq!['I', 'n', 'v', 'a', 'l', 'i', 'd']);
        assert("episode_id"@.len() == 10);
        assert("comment"@.len() == 7);
        assert("rating"@.len() == 6);
        assert("share_twitter"@.len() == 13);
        assert("share_facebook"@.len() == 14);
        assert("Invalid"@.len() == 7);
        let keys = Self::spec_keys();
        assert forall|k: Self| k.spec_is_valid() <==> #[trigger] keys.contains(k) by {
            match k {
                MeRecords::episode_id => assert(keys[0] == k),
                MeRecords::comment => assert(keys[1] == k),
                MeRecords::rating => assert(keys[2] == k),
                MeRecords::share_twitter => assert(keys[3] == k),
                MeRecords::share_facebook => assert(keys[4] == k),
                MeRecords::Invalid => assert(forall|i: int| 0 <= i < keys.len() ==> keys[i] != k),
            }
        }
    }
}

/// Query keys accepted by `/v1/me/works`; `Invalid` stands for any other name.
#[allow(non_camel_case_types)]
#[derive(Clone, Copy, Debug, PartialEq, Eq, Structural)]
pub enum MeWorks {
    fields,
    filter_ids,
    filter_season,
    filter_title,
    filter_status,
    page,
    per_page,
    sort_id,
    sort_season,
    sort_watchers_count,
    Invalid,
}

impl IsValid for MeWorks {
    open spec fn spec_is_valid(&self) -> bool {
        !(*self is Invalid)
    }

    fn is_valid(&self) -> (r: bool) {
        match self {
            MeWorks::Invalid => false,
            _ => true,
        }
    }
}

impl QueryName for MeWorks {
    open spec fn spec_name(&self) -> Seq<char> {
        match *self {
            MeWorks::fields => "fields"@,
            MeWorks::filter_ids => "filter_ids"@,
            MeWorks::filter_season => "filter_season"@,
            MeWorks::filter_title => "filter_title"@,
            MeWorks::filter_status => "filter_status"@,
            MeWorks::page => "page"@,
            MeWorks::per_page => "per_page"@,
            MeWorks::sort_id => "sort_id"@,
            MeWorks::sort_season => "sort_season"@,
            MeWorks::sort_watchers_count => "sort_watchers_count"@,
            MeWorks::Invalid => "Invalid"@,
        }
    }

    fn name(&self) -> (r: String) {
        match self {
            MeWorks::fields => "fields".to_owned(),
            MeWorks::filter_ids => "filter_ids".to_owned(),
            MeWorks::filter_season => "filter_season".to_owned(),
            MeWorks::filter_title => "filter_title".to_owned(),
            MeWorks::filter_status => "filter_status".to_owned(),
            MeWorks::page => "page".to_owned(),
            MeWorks::per_page => "per_page".to_owned(),
            MeWorks::sort_id => "sort_id".to_owned(),
            MeWorks::sort_season => "sort_season".to_owned(),
            MeWorks::sort_watchers_count => "sort_watchers_count".to_owned(),
            MeWorks::Invalid => "Invalid".to_owned(),
        }
    }
}

impl ParamKey for MeWorks {
    open spec fn spec_keys() -> Seq<Self> {
        seq![
            MeWorks::fields,
            MeWorks::filter_ids,
            MeWorks::filter_season,
            MeWorks::filter_title,
            MeWorks::filter_status,
            MeWorks::page,
            MeWorks::per_page,
            MeWorks::sort_id,
            MeWorks::sort_season,
            MeWorks::sort_watchers_count,
        ]
    }

    open spec fn spec_invalid() -> Self {
        MeWorks::Invalid
    }

    fn keys() -> (r: Vec<Self>) {
        vec![
            MeWorks::fields,
            MeWorks::filter_ids,
            MeWorks::filter_season,
            MeWorks::filter_title,
            MeWorks::filter_status,
            MeWorks::page,
            MeWorks::per_page,
            MeWorks::sort_id,
            MeWorks::sort_season,
            MeWorks::sort_watchers_count,
        ]
    }

    fn invalid() -> (r: Self) {
        MeWorks::Invalid
    }

    proof fn lemma_key_set() {
        reveal_strlit("fields");
        reveal_strlit("filter_ids");
        reveal_strlit("filter_season");
        reveal_strlit("filter_title");
        reveal_strlit("filter_status");
        reveal_strlit("page");
        reveal_strlit("per_page");
        reveal_strlit("sort_id");
        reveal_strlit("sort_season");
        reveal_strlit("sort_watchers_count");
        reveal_strlit("Invalid");
        assert("fields"@ =~= seq!['f', 'i', 'e', 'l', 'd', 's']);
        assert("filter_ids"@ =~= seq!['f', 'i', 'l', 't', 'e', 'r', '_', 'i', 'd', 's']);
        assert("filter_season"@ =~= seq!['f', 'i', 'l', 't', 'e', 'r', '_', 's', 'e', 'a', 's', 'o', 'n']);
        assert("filter_title"@ =~= seq!['f', 'i', 'l', 't', 'e', 'r', '_', 't', 'i', 't', 'l', 'e']);
        assert("filter_status"@ =~= seq!['f', 'i', 'l', 't', 'e', 'r', '_', 's', 't', 'a', 't', 'u', 's']);
        assert("page"@ =~= seq!['p', 'a', 'g', 'e']);
        assert("per_page"@ =~= seq!['p', 'e', 'r', '_', 'p', 'a', 'g', 'e']);
        assert("sort_id"@ =~= seq!['s', 'o', 'r', 't', '_', 'i', 'd']);
        assert("sort_season"@ =~= seq!['s', 'o', 'r', 't', '_', 's', 'e', 'a', 's', 'o', 'n']);
        assert("sort_watchers_count"@ =~= seq!['s', 'o', 'r', 't', '_', 'w', 'a', 't', 'c', 'h', 'e', 'r', 's', '_', 'c', 'o', 'u', 'n', 't']);
        assert("Invalid"@ =~= seq!['I', 'n', 'v', 'a', 'l', 'i', 'd']);
        assert("fields"@.len() == 6);
        assert("filter_ids"@.len() == 10);
        assert("filter_season"@.len() == 13);
        assert("filter_title"@.len() == 12);
        assert("filter_status"@.len() == 13);
        assert("page"@.len() == 4);
        assert("per_page"@.len() == 8);
        assert("sort_id"@.len() == 7);
        assert("sort_season"@.len() == 11);
        assert("sort_watchers_count"@.len() == 19);
        assert("Invalid"@.len() == 7);
        let keys = Self::spec_keys();
        assert forall|k: Self| k.spec_is_valid() <==> #[trigger] keys.contains(k) by {
            match k {
                MeWorks::fields => assert(keys[0] == k),
                MeWorks::filter_ids => assert(keys[1] == k),
                MeWorks::filter_season => assert(keys[2] == k),
                MeWorks::filter_title => assert(keys[3] == k),
                MeWorks::filter_status => assert(keys[4] == k),
                MeWorks::page => assert(keys[5] == k),
                MeWorks::per_page => assert(keys[6] == k),
                MeWorks::sort_id => assert(keys[7] == k),
                MeWorks::sort_season => assert(keys[8] == k),
                MeWorks::sort_watchers_count => assert(keys[9] == k),
                MeWorks::Invalid => assert(forall|i: int| 0 <= i < keys.len() ==> keys[i] != k),
            }
        }
    }
}

/// Query keys accepted by `/v1/me/programs`; `Invalid` stands for any other name.
#[allow(non_camel_case_types)]
#[derive(Clone, Copy, Debug, PartialEq, Eq, Structural)]
pub enum MePrograms {
    fields,
    filter_ids,
    filter_channel_ids,
    filter_work_ids,
    filter_started_at_gt,
    filter_started_at_lt,
    filter_unwatched,
    filter_rebroadcast,
    page,
    per_page,
    sort_id,
    sort_started_at,
    Invalid,
}

impl IsValid for MePrograms {
    open spec fn spec_is_valid(&self) -> bool {
        !(*self is Invalid)
    }

    fn is_valid(&self) -> (r: bool) {
        match self {
            MePrograms::Invalid => false,
            _ => true,
        }
    }
}

impl QueryName for MePrograms {
    open spec fn spec_name(&self) -> Seq<char> {
        match *self {
            MePrograms::fields => "fields"@,
            MePrograms::filter_ids => "filter_ids"@,
            MePrograms::filter_channel_ids => "filter_channel_ids"@,
            MePrograms::filter_work_ids => "filter_work_ids"@,
            MePrograms::filter_started_at_gt => "filter_started_at_gt"@,
            MePrograms::filter_started_at_lt => "filter_started_at_lt"@,
            MePrograms::filter_unwatched => "filter_unwatched"@,
            MePrograms::filter_rebroadcast => "filter_rebroadcast"@,
            MePrograms::page => "page"@,
            MePrograms::per_page => "per_page"@,
            MePrograms::sort_id => "sort_id"@,
            MePrograms::sort_started_at => "sort_started_at"@,
            MePrograms::Invalid => "Invalid"@,
        }
    }

    fn name(&self) -> (r: String) {
        match self {
            MePrograms::fields => "fields".to_owned(),
            MePrograms::filter_ids => "filter_ids".to_owned(),
            MePrograms::filter_channel_ids => "filter_channel_ids".to_owned(),
            MePrograms::filter_work_ids => "filter_work_ids".to_owned(),
            MePrograms::filter_started_at_gt => "filter_started_at_gt".to_owned(),
            MePrograms::filter_started_at_lt => "filter_started_at_lt".to_owned(),
            MePrograms::filter_unwatched => "filter_unwatched".to_owned(),
            MePrograms::filter_rebroadcast => "filter_rebroadcast".to_owned(),
            MePrograms::page => "page".to_owned(),
            MePrograms::per_page => "per_page".to_owned(),
            MePrograms::sort_id => "sort_id".to_owned(),
            MePrograms::sort_started_at => "sort_started_at".to_owned(),
            MePrograms::Invalid => "Invalid".to_owned(),
        }
    }
}

impl ParamKey for MePrograms {
    open spec fn spec_keys() -> Seq<Self> {
        seq![
            MePrograms::fields,
            MePrograms::filter_ids,
            MePrograms::filter_channel_ids,
            MePrograms::filter_work_ids,
            MePrograms::filter_started_at_gt,
            MePrograms::filter_started_at_lt,
            MePrograms::filter_unwatched,
            MePrograms::filter_rebroadcast,
            MePrograms::page,
            MePrograms::per_page,
            MePrograms::sort_id,
            MePrograms::sort_started_at,
        ]
    }

    open spec fn spec_invalid() -> Self {
        MePrograms::Invalid
    }

    fn keys() -> (r: Vec<Self>) {
        vec![
            MePrograms::fields,
            MePrograms::filter_ids,
            MePrograms::filter_channel_ids,
            MePrograms::filter_work_ids,
            MePrograms::filter_started_at_gt,
            MePrograms::filter_started_at_lt,
            MePrograms::filter_unwatched,
            MePrograms::filter_rebroadcast,
            MePrograms::page,
            MePrograms::per_page,
            MePrograms::sort_id,
            MePrograms::sort_started_at,
        ]
    }

    fn invalid() -> (r: Self) {
        MePrograms::Invalid
    }

    proof fn lemma_key_set() {
        reveal_strlit("fields");
        reveal_strlit("filter_ids");
        reveal_strlit("filter_channel_ids");
        reveal_strlit("filter_work_ids");
        reveal_strlit("filter_started_at_gt");
        reveal_strlit("filter_started_at_lt");
        reveal_strlit("filter_unwatched");
        reveal_strlit("filter_rebroadcast");
        reveal_strlit("page");
        reveal_strlit("per_page");
        reveal_strlit("sort_id");
        reveal_strlit("sort_started_at");
        reveal_strlit("Invalid");
        assert("fields"@ =~= seq!['f', 'i', 'e', 'l', 'd', 's']);
        assert("filter_ids"@ =~= seq!['f', 'i', 'l', 't', 'e', 'r', '_', 'i', 'd', 's']);
        assert("filter_channel_ids"@ =~= seq!['f', 'i', 'l', 't', 'e', 'r', '_', 'c', 'h', 'a', 'n', 'n', 'e', 'l', '_', 'i', 'd', 's']);
        assert("filter_work_ids"@ =~= seq!['f', 'i', 'l', 't', 'e', 'r', '_', 'w', 'o', 'r', 'k', '_', 'i', 'd', 's']);
        assert("filter_started_at_gt"@ =~= seq!['f', 'i', 'l', 't', 'e', 'r', '_', 's', 't', 'a', 'r', 't', 'e', 'd', '_', 'a', 't', '_', 'g', 't']);
        assert("filter_started_at_lt"@ =~= seq!['f', 'i', 'l', 't', 'e', 'r', '_', 's', 't', 'a', 'r', 't', 'e', 'd', '_', 'a', 't', '_', 'l', 't']);
        assert("filter_unwatched"@ =~= seq!['f', 'i', 'l', 't', 'e', 'r', '_', 'u', 'n', 'w', 'a', 't', 'c', 'h', 'e', 'd']);
        assert("filter_rebroadcast"@ =~= seq!['f', 'i', 'l', 't', 'e', 'r', '_', 'r', 'e', 'b', 'r', 'o', 'a', 'd', 'c', 'a', 's', 't']);
        assert("page"@ =~= seq!['p', 'a', 'g', 'e']);
        assert("per_page"@ =~= seq!['p', 'e', 'r', '_', 'p', 'a', 'g', 'e']);
        assert("sort_id"@ =~= seq!['s', 'o', 'r', 't', '_', 'i', 'd']);
        assert("sort_started_at"@ =~= seq!['s', 'o', 'r', 't', '_', 's', 't', 'a', 'r', 't', 'e', 'd', '_', 'a', 't']);
        assert("Invalid"@ =~= seq!['I', 'n', 'v', 'a', 'l', 'i', 'd']);
        assert("fields"@.len() == 6);
        assert("filter_ids"@.len() == 10);
        assert("filter_channel_ids"@.len() == 18);
        assert("filter_work_ids"@.len() == 15);
        assert("filter_started_at_gt"@.len() == 20);
        assert("filter_started_at_lt"@.len() == 20);
        assert("filter_unwatched"@.len() == 16);
        assert("filter_rebroadcast"@.len() == 18);
        assert("page"@.len() == 4);
        assert("per_page"@.len() == 8);
        assert("sort_id"@.len() == 7);
        assert("sort_started_at"@.len() == 15);
        assert("Invalid"@.len() == 7);
        let keys = Self::spec_keys();
        assert forall|k: Self| k.spec_is_valid() <==> #[trigger] keys.contains(k) by {
            match k {
                MePrograms::fields => assert(keys[0] == k),
                MePrograms::filter_ids => assert(keys[1] == k),
                MePrograms::filter_channel_ids => assert(keys[2] == k),
                MePrograms::filter_work_ids => assert(keys[3] == k),
                MePrograms::filter_started_at_gt => assert(keys[4] == k),
                MePrograms::filter_started_at_lt => assert(keys[5] == k),
                MePrograms::filter_unwatched => assert(keys[6] == k),
                MePrograms::filter_rebroadcast => assert(keys[7] == k),
                MePrograms::page => assert(keys[8] == k),
                MePrograms::per_page => assert(keys[9] == k),
                MePrograms::sort_id => assert(keys[10] == k),
                MePrograms::sort_started_at => assert(keys[11] == k),
                MePrograms::Invalid => assert(forall|i: int| 0 <= i < keys.len() ==> keys[i] != k),
            }
        }
    }
}

/// Query keys accepted by `/v1/people`; `Invalid` stands for any other name.
#[allow(non_camel_case_types)]
#[derive(Clone, Copy, Debug, PartialEq, Eq, Structural)]
pub enum People {
    fields,
    filter_ids,
    filter_name,
    page,
    per_page,
    sort_id,
    Invalid,
}

impl IsValid for People {
    open spec fn spec_is_valid(&self) -> bool {
        !(*self is Invalid)
    }

    fn is_valid(&self) -> (r: bool) {
        match self {
            People::Invalid => false,
            _ => true,
        }
    }
}

impl QueryName for People {
    open spec fn spec_name(&self) -> Seq<char> {
        match *self {
            People::fields => "fields"@,
            People::filter_ids => "filter_ids"@,
            People::filter_name => "filter_name"@,
            People::page => "page"@,
            People::per_page => "per_page"@,
            People::sort_id => "sort_id"@,
            People::Invalid => "Invalid"@,
        }
    }

    fn name(&self) -> (r: String) {
        match self {
            People::fields => "fields".to_owned(),
            People::filter_ids => "filter_ids".to_owned(),
            People::filter_name => "filter_name".to_owned(),
            People::page => "page".to_owned(),
            People::per_page => "per_page".to_owned(),
            People::sort_id => "sort_id".to_owned(),
            People::Invalid => "Invalid".to_owned(),
        }
    }
}

impl ParamKey for People {
    open spec fn spec_keys() -> Seq<Self> {
        seq![
            People::fields,
            People::filter_ids,
            People::filter_name,
            People::page,
            People::per_page,
            People::sort_id,
        ]
    }

    open spec fn spec_invalid() -> Self {
        People::Invalid
    }

    fn keys() -> (r: Vec<Self>) {
        vec![
            People::fields,
            People::filter_ids,
            People::filter_name,
            People::page,
            People::per_page,
            People::sort_id,
        ]
    }

    fn invalid() -> (r: Self) {
        People::Invalid
    }

    proof fn lemma_key_set() {
        reveal_strlit("fields");
        reveal_strlit("filter_ids");
        reveal_strlit("filter_name");
        reveal_strlit("page");
        reveal_strlit("per_page");
        reveal_strlit("sort_id");
        reveal_strlit("Invalid");
        assert("fields"@ =~= seq!['f', 'i', 'e', 'l', 'd', 's']);
        assert("filter_ids"@ =~= seq!['f', 'i', 'l', 't', 'e', 'r', '_', 'i', 'd', 's']);
        assert("filter_name"@ =~= seq!['f', 'i', 'l', 't', 'e', 'r', '_', 'n', 'a', 'm', 'e']);
        assert("page"@ =~= seq!['p', 'a', 'g', 'e']);
        assert("per_page"@ =~= seq!['p', 'e', 'r', '_', 'p', 'a', 'g', 'e']);
        assert("sort_id"@ =~= seq!['s', 'o', 'r', 't', '_', 'i', 'd']);
        assert("Invalid"@ =~= seq!['I', 'n', 'v', 'a', 'l', 'i', 'd']);
        assert("fields"@.len() == 6);
        assert("filter_ids"@.len() == 10);
        assert("filter_name"@.len() == 11);
        assert("page"@.len() == 4);
        assert("per_page"@.len() == 8);
        assert("sort_id"@.len() == 7);
        assert("Invalid"@.len() == 7);
        let keys = Self::spec_keys();
        assert forall|k: Self| k.spec_is_valid() <==> #[trigger] keys.contains(k) by {
            match k {
                People::fields => assert(keys[0] == k),
                People::filter_ids => assert(keys[1] == k),
                People::filter_name => assert(keys[2] == k),
                People::page => assert(keys[3] == k),
                People::per_page => assert(keys[4] == k),
                People::sort_id => assert(keys[5] == k),
                People::Invalid => assert(forall|i: int| 0 <= i < keys.len() ==> keys[i] != k),
            }
        }
    }
}

/// Query keys accepted by `/v1/organizations`; `Invalid` stands for any other name.
#[allow(non_camel_case_types)]
#[derive(Clone, Copy, Debug, PartialEq, Eq, Structural)]
pub enum Organizations {
    fields,
    filter_ids,
    filter_name,
    page,
    per_page,
    sort_id,
    Invalid,
}

impl IsValid for Organizations {
    open spec fn spec_is_valid(&self) -> bool {
        !(*self is Invalid)
    }

    fn is_valid(&self) -> (r: bool) {
        match self {
            Organizations::Invalid => false,
            _ => true,
        }
    }
}

impl QueryName for Organizations {
    open spec fn spec_name(&self) -> Seq<char> {
        match *self {
            Organizations::fields => "fields"@,
            Organizations::filter_ids => "filter_ids"@,
            Organizations::filter_name => "filter_name"@,
            Organizations::page => "page"@,
            Organizations::per_page => "per_page"@,
            Organizations::sort_id => "sort_id"@,
            Organizations::Invalid => "Invalid"@,
        }
    }

    fn name(&self) -> (r: String) {
        match self {
            Organizations::fields => "fields".to_owned(),
            Organizations::filter_ids => "filter_ids".to_owned(),
            Organizations::filter_name => "filter_name".to_owned(),
            Organizations::page => "page".to_owned(),
            Organizations::per_page => "per_page".to_owned(),
            Organizations::sort_id => "sort_id".to_owned(),
            Organizations::Invalid => "Invalid".to_owned(),
        }
    }
}

impl ParamKey for Organizations {
    open spec fn spec_keys() -> Seq<Self> {
        seq![
            Organizations::fields,
            Organizations::filter_ids,
            Organizations::filter_name,
            Organizations::page,
            Organizations::per_page,
            Organizations::sort_id,
        ]
    }

    open spec fn spec_invalid() -> Self {
        Organizations::Invalid
    }

    fn keys() -> (r: Vec<Self>) {
        vec![
            Organizations::fields,
            Organizations::filter_ids,
            Organizations::filter_name,
            Organizations::page,
            Organizations::per_page,
            Organizations::sort_id,
        ]
    }

    fn invalid() -> (r: Self) {
        Organizations::Invalid
    }

    proof fn lemma_key_set() {
        reveal_strlit("fields");
        reveal_strlit("filter_ids");
        reveal_strlit("filter_name");
        reveal_strlit("page");
        reveal_strlit("per_page");
        reveal_strlit("sort_id");
        reveal_strlit("Invalid");
        assert("fields"@ =~= seq!['f', 'i', 'e', 'l', 'd', 's']);
        assert("filter_ids"@ =~= seq!['f', 'i', 'l', 't', 'e', 'r', '_', 'i', 'd', 's']);
        assert("filter_name"@ =~= seq!['f', 'i', 'l', 't', 'e', 'r', '_', 'n', 'a', 'm', 'e']);
        assert("page"@ =~= seq!['p', 'a', 'g', 'e']);
        assert("per_page"@ =~= seq!['p', 'e', 'r', '_', 'p', 'a', 'g', 'e']);
        assert("sort_id"@ =~= seq!['s', 'o', 'r', 't', '_', 'i', 'd']);
        assert("Invalid"@ =~= seq!['I', 'n', 'v', 'a', 'l', 'i', 'd']);
        assert("fields"@.len() == 6);
        assert("filter_ids"@.len() == 10);
        assert("filter_name"@.len() == 11);
        assert("page"@.len() == 4);
        assert("per_page"@.len() == 8);
        assert("sort_id"@.len() == 7);
        assert("Invalid"@.len() == 7);
        let keys = Self::spec_keys();
        assert forall|k: Self| k.spec_is_valid() <==> #[trigger] keys.contains(k) by {
            match k {
                Organizations::fields => assert(keys[0] == k),
                Organizations::filter_ids => assert(keys[1] == k),
                Organizations::filter_name => assert(keys[2] == k),
                Organizations::page => assert(keys[3] == k),
                Organizations::per_page => assert(keys[4] == k),
                Organizations::sort_id => assert(keys[5] == k),
                Organizations::Invalid => assert(forall|i: int| 0 <= i < keys.len() ==> keys[i] != k),
            }
        }
    }
}

/// Query keys accepted by `/v1/series`; `Invalid` stands for any other name.
#[allow(non_camel_case_types)]
#[derive(Clone, Copy, Debug, PartialEq, Eq, Structural)]
pub enum Series {
    fields,
    filter_ids,
    filter_name,
    page,
    per_page,
    sort_id,
    Invalid,
}

impl IsValid for Series {
    open spec fn spec_is_valid(&self) -> bool {
        !(*self is Invalid)
    }

    fn is_valid(&self) -> (r: bool) {
        match self {
            Series::Invalid => false,
            _ => true,
        }
    }
}

impl QueryName for Series {
    open spec fn spec_name(&self) -> Seq<char> {
        match *self {
            Series::fields => "fields"@,
            Series::filter_ids => "filter_ids"@,
            Series::filter_name => "filter_name"@,
            Series::page => "page"@,
            Series::per_page => "per_page"@,
            Series::sort_id => "sort_id"@,
            Series::Invalid => "Invalid"@,
        }
    }

    fn name(&self) -> (r: String) {
        match self {
            Series::fields => "fields".to_owned(),
            Series::filter_ids => "filter_ids".to_owned(),
            Series::filter_name => "filter_name".to_owned(),
            Series::page => "page".to_owned(),
            Series::per_page => "per_page".to_owned(),
            Series::sort_id => "sort_id".to_owned(),
            Series::Invalid => "Invalid".to_owned(),
        }
    }
}

impl ParamKey for Series {
    open spec fn spec_keys() -> Seq<Self> {
        seq![
            Series::fields,
            Series::filter_ids,
            Series::filter_name,
            Series::page,
            Series::per_page,
            Series::sort_id,
        ]
    }

    open spec fn spec_invalid() -> Self {
        Series::Invalid
    }

    fn keys() -> (r: Vec<Self>) {
        vec![
            Series::fields,
            Series::filter_ids,
            Series::filter_name,
            Series::page,
            Series::per_page,
            Series::sort_id,
        ]
    }

    fn invalid() -> (r: Self) {
        Series::Invalid
    }

    proof fn lemma_key_set() {
        reveal_strlit("fields");
        reveal_strlit("filter_ids");
        reveal_strlit("filter_name");
        reveal_strlit("page");
        reveal_strlit("per_page");
        reveal_strlit("sort_id");
        reveal_strlit("Invalid");
        assert("fields"@ =~= seq!['f', 'i', 'e', 'l', 'd', 's']);
        assert("filter_ids"@ =~= seq!['f', 'i', 'l', 't', 'e', 'r', '_', 'i', 'd', 's']);
        assert("filter_name"@ =~= seq!['f', 'i', 'l', 't', 'e', 'r', '_', 'n', 'a', 'm', 'e']);
        assert("page"@ =~= seq!['p', 'a', 'g', 'e']);
        assert("per_page"@ =~= seq!['p', 'e', 'r', '_', 'p', 'a', 'g', 'e']);
        assert("sort_id"@ =~= seq!['s', 'o', 'r', 't', '_', 'i', 'd']);
        assert("Invalid"@ =~= seq!['I', 'n', 'v', 'a', 'l', 'i', 'd']);
        assert("fields"@.len() == 6);
        assert("filter_ids"@.len() == 10);
        assert("filter_name"@.len() == 11);
        assert("page"@.len() == 4);
        assert("per_page"@.len() == 8);
        assert("sort_id"@.len() == 7);
        assert("Invalid"@.len() == 7);
        let keys = Self::spec_keys();
        assert forall|k: Self| k.spec_is_valid() <==> #[trigger] keys.contains(k) by {
            match k {
                Series::fields => assert(keys[0] == k),
                Series::filter_ids => assert(keys[1] == k),
                Series::filter_name => assert(keys[2] == k),
                Series::page => assert(keys[3] == k),
                Series::per_page => assert(keys[4] == k),
                Series::sort_id => assert(keys[5] == k),
                Series::Invalid => assert(forall|i: int| 0 <= i < keys.len() ==> keys[i] != k),
            }
        }
    }
}

/// Query keys accepted by `/v1/characters`; `Invalid` stands for any other name.
#[allow(non_camel_case_types)]
#[derive(Clone, Copy, Debug, PartialEq, Eq, Structural)]
pub enum Characters {
    fields,
    filter_ids,
    filter_name,
    page,
    per_page,
    sort_id,
    Invalid,
}

impl IsValid for Characters {
    open spec fn spec_is_valid(&self) -> bool {
        !(*self is Invalid)
    }

    fn is_valid(&self) -> (r: bool) {
        match self {
            Characters::Invalid => false,
            _ => true,
        }
    }
}

impl QueryName for Characters {
    open spec fn spec_name(&self) -> Seq<char> {
        match *self {
            Characters::fields => "fields"@,
            Characters::filter_ids => "filter_ids"@,
            Characters::filter_name => "filter_name"@,
            Characters::page => "page"@,
            Characters::per_page => "per_page"@,
            Characters::sort_id => "sort_id"@,
            Characters::Invalid => "Invalid"@,
        }
    }

    fn name(&self) -> (r: String) {
        match self {
            Characters::fields => "fields".to_owned(),
            Characters::filter_ids => "filter_ids".to_owned(),
            Characters::filter_name => "filter_name".to_owned(),
            Characters::page => "page".to_owned(),
            Characters::per_page => "per_page".to_owned(),
            Characters::sort_id => "sort_id".to_owned(),
            Characters::Invalid => "Invalid".to_owned(),
        }
    }
}

impl ParamKey for Characters {
    open spec fn spec_keys() -> Seq<Self> {
        seq![
            Characters::fields,
            Characters::filter_ids,
            Characters::filter_name,
            Characters::page,
            Characters::per_page,
            Characters::sort_id,
        ]
    }

    open spec fn spec_invalid() -> Self {
        Characters::Invalid
    }

    fn keys() -> (r: Vec<Self>) {
        vec![
            Characters::fields,
            Characters::filter_ids,
            Characters::filter_name,
            Characters::page,
            Characters::per_page,
            Characters::sort_id,
        ]
    }

    fn invalid() -> (r: Self) {
        Characters::Invalid
    }

    proof fn lemma_key_set() {
        reveal_strlit("fields");
        reveal_strlit("filter_ids");
        reveal_strlit("filter_name");
        reveal_strlit("page");
        reveal_strlit("per_page");
        reveal_strlit("sort_id");
        reveal_strlit("Invalid");
        assert("fields"@ =~= seq!['f', 'i', 'e', 'l', 'd', 's']);
        assert("filter_ids"@ =~= seq!['f', 'i', 'l', 't', 'e', 'r', '_', 'i', 'd', 's']);
        assert("filter_name"@ =~= seq!['f', 'i', 'l', 't', 'e', 'r', '_', 'n', 'a', 'm', 'e']);
        assert("page"@ =~= seq!['p', 'a', 'g', 'e']);
        assert("per_page"@ =~= seq!['p', 'e', 'r', '_', 'p', 'a', 'g', 'e']);
        assert("sort_id"@ =~= seq!['s', 'o', 'r', 't', '_', 'i', 'd']);
        assert("Invalid"@ =~= seq!['I', 'n', 'v', 'a', 'l', 'i', 'd']);
        assert("fields"@.len() == 6);
        assert("filter_ids"@.len() == 10);
        assert("filter_name"@.len() == 11);
        assert("page"@.len() == 4);
        assert("per_page"@.len() == 8);
        assert("sort_id"@.len() == 7);
        assert("Invalid"@.len() == 7);
        let keys = Self::spec_keys();
        assert forall|k: Self| k.spec_is_valid() <==> #[trigger] keys.contains(k) by {
            match k {
                Characters::fields => assert(keys[0] == k),
                Characters::filter_ids => assert(keys[1] == k),
                Characters::filter_name => assert(keys[2] == k),
                Characters::page => assert(keys[3] == k),
                Characters::per_page => assert(keys[4] == k),
                Characters::sort_id => assert(keys[5] == k),
                Characters::Invalid => assert(forall|i: int| 0 <= i < keys.len() ==> keys[i] != k),
            }
        }
    }
}

/// Query keys accepted by `/v1/casts`; `Invalid` stands for any other name.
#[allow(non_camel_case_types)]
#[derive(Clone, Copy, Debug, PartialEq, Eq, Structural)]
pub enum Casts {
    fields,
    filter_ids,
    filter_work_id,
    page,
    per_page,
    sort_id,
    sort_sort_number,
    Invalid,
}

impl IsValid for Casts {
    open spec fn spec_is_valid(&self) -> bool {
        !(*self is Invalid)
    }

    fn is_valid(&self) -> (r: bool) {
        match self {
            Casts::Invalid => false,
            _ => true,
        }
    }
}

impl QueryName for Casts {
    open spec fn spec_name(&self) -> Seq<char> {
        match *self {
            Casts::fields => "fields"@,
            Casts::filter_ids => "filter_ids"@,
            Casts::filter_work_id => "filter_work_id"@,
            Casts::page => "page"@,
            Casts::per_page => "per_page"@,
            Casts::sort_id => "sort_id"@,
            Casts::sort_sort_number => "sort_sort_number"@,
            Casts::Invalid => "Invalid"@,
        }
    }

    fn name(&self) -> (r: String) {
        match self {
            Casts::fields => "fields".to_owned(),
            Casts::filter_ids => "filter_ids".to_owned(),
            Casts::filter_work_id => "filter_work_id".to_owned(),
            Casts::page => "page".to_owned(),
            Casts::per_page => "per_page".to_owned(),
            Casts::sort_id => "sort_id".to_owned(),
            Casts::sort_sort_number => "sort_sort_number".to_owned(),
            Casts::Invalid => "Invalid".to_owned(),
        }
    }
}

impl ParamKey for Casts {
    open spec fn spec_keys() -> Seq<Self> {
        seq![
            Casts::fields,
            Casts::filter_ids,
            Casts::filter_work_id,
            Casts::page,
            Casts::per_page,
            Casts::sort_id,
            Casts::sort_sort_number,
        ]
    }

    open spec fn spec_invalid() -> Self {
        Casts::Invalid
    }

    fn keys() -> (r: Vec<Self>) {
        vec![
            Casts::fields,
            Casts::filter_ids,
            Casts::filter_work_id,
            Casts::page,
            Casts::per_page,
            Casts::sort_id,
            Casts::sort_sort_number,
        ]
    }

    fn invalid() -> (r: Self) {
        Casts::Invalid
    }

    proof fn lemma_key_set() {
        reveal_strlit("fields");
        reveal_strlit("filter_ids");
        reveal_strlit("filter_work_id");
        reveal_strlit("page");
        reveal_strlit("per_page");
        reveal_strlit("sort_id");
        reveal_strlit("sort_sort_number");
        reveal_strlit("Invalid");
        assert("fields"@ =~= seq!['f', 'i', 'e', 'l', 'd', 's']);
        assert("filter_ids"@ =~= seq!['f', 'i', 'l', 't', 'e', 'r', '_', 'i', 'd', 's']);
        assert("filter_work_id"@ =~= seq!['f', 'i', 'l', 't', 'e', 'r', '_', 'w', 'o', 'r', 'k', '_', 'i', 'd']);
        assert("page"@ =~= seq!['p', 'a', 'g', 'e']);
        assert("per_page"@ =~= seq!['p', 'e', 'r', '_', 'p', 'a', 'g', 'e']);
        assert("sort_id"@ =~= seq!['s', 'o', 'r', 't', '_', 'i', 'd']);
        assert("sort_sort_number"@ =~= seq!['s', 'o', 'r', 't', '_', 's', 'o', 'r', 't', '_', 'n', 'u', 'm', 'b', 'e', 'r']);
        assert("Invalid"@ =~= seq!['I', 'n', 'v', 'a', 'l', 'i', 'd']);
        assert("fields"@.len() == 6);
        assert("filter_ids"@.len() == 10);
        assert("filter_work_id"@.len() == 14);
        assert("page"@.len() == 4);
        assert("per_page"@.len() == 8);
        assert("sort_id"@.len() == 7);
        assert("sort_sort_number"@.len() == 16);
        assert("Invalid"@.len() == 7);
        let keys = Self::spec_keys();
        assert forall|k: Self| k.spec_is_valid() <==> #[trigger] keys.contains(k) by {
            match k {
                Casts::fields => assert(keys[0] == k),
                Casts::filter_ids => assert(keys[1] == k),
                Casts::filter_work_id => assert(keys[2] == k),
                Casts::page => assert(keys[3] == k),
                Casts::per_page => assert(keys[4] == k),
                Casts::sort_id => assert(keys[5] == k),
                Casts::sort_sort_number => assert(keys[6] == k),
                Casts::Invalid => assert(forall|i: int| 0 <= i < keys.len() ==> keys[i] != k),
            }
        }
    }
}

/// Query keys accepted by `/v1/staffs`; `Invalid` stands for any other name.
#[allow(non_camel_case_types)]
#[derive(Clone, Copy, Debug, PartialEq, Eq, Structural)]
pub enum Staffs {
    fields,
    filter_ids,
    filter_name,
    page,
    per_page,
    sort_id,
    Invalid,
}

impl IsValid for Staffs {
    open spec fn spec_is_valid(&self) -> bool {
        !(*self is Invalid)
    }

    fn is_valid(&self) -> (r: bool) {
        match self {
            Staffs::Invalid => false,
            _ => true,
        }
    }
}

impl QueryName for Staffs {
    open spec fn spec_name(&self) -> Seq<char> {
        match *self {
            Staffs::fields => "fields"@,
            Staffs::filter_ids => "filter_ids"@,
            Staffs::filter_name => "filter_name"@,
            Staffs::page => "page"@,
            Staffs::per_page => "per_page"@,
            Staffs::sort_id => "sort_id"@,
            Staffs::Invalid => "Invalid"@,
        }
    }

    fn name(&self) -> (r: String) {
        match self {
            Staffs::fields => "fields".to_owned(),
            Staffs::filter_ids => "filter_ids".to_owned(),
            Staffs::filter_name => "filter_name".to_owned(),
            Staffs::page => "page".to_owned(),
            Staffs::per_page => "per_page".to_owned(),
            Staffs::sort_id => "sort_id".to_owned(),
            Staffs::Invalid => "Invalid".to_owned(),
        }
    }
}

impl ParamKey for Staffs {
    open spec fn spec_keys() -> Seq<Self> {
        seq![
            Staffs::fields,
            Staffs::filter_ids,
            Staffs::filter_name,
            Staffs::page,
            Staffs::per_page,
            Staffs::sort_id,
        ]
    }

    open spec fn spec_invalid() -> Self {
        Staffs::Invalid
    }

    fn keys() -> (r: Vec<Self>) {
        vec![
            Staffs::fields,
            Staffs::filter_ids,
            Staffs::filter_name,
            Staffs::page,
            Staffs::per_page,
            Staffs::sort_id,
        ]
    }

    fn invalid() -> (r: Self) {
        Staffs::Invalid
    }

    proof fn lemma_key_set() {
        reveal_strlit("fields");
        reveal_strlit("filter_ids");
        reveal_strlit("filter_name");
        reveal_strlit("page");
        reveal_strlit("per_page");
        reveal_strlit("sort_id");
        reveal_strlit("Invalid");
        assert("fields"@ =~= seq!['f', 'i', 'e', 'l', 'd', 's']);
        assert("filter_ids"@ =~= seq!['f', 'i', 'l', 't', 'e', 'r', '_', 'i', 'd', 's']);
        assert("filter_name"@ =~= seq!['f', 'i', 'l', 't', 'e', 'r', '_', 'n', 'a', 'm', 'e']);
        assert("page"@ =~= seq!['p', 'a', 'g', 'e']);
        assert("per_page"@ =~= seq!['p', 'e', 'r', '_', 'p', 'a', 'g', 'e']);
        assert("sort_id"@ =~= seq!['s', 'o', 'r', 't', '_', 'i', 'd']);
        assert("Invalid"@ =~= seq!['I', 'n', 'v', 'a', 'l', 'i', 'd']);
        assert("fields"@.len() == 6);
        assert("filter_ids"@.len() == 10);
        assert("filter_name"@.len() == 11);
        assert("page"@.len() == 4);
        assert("per_page"@.len() == 8);
        assert("sort_id"@.len() == 7);
        assert("Invalid"@.len() == 7);
        let keys = Self::spec_keys();
        assert forall|k: Self| k.spec_is_valid() <==> #[trigger] keys.contains(k) by {
            match k {
                Staffs::fields => assert(keys[0] == k),
                Staffs::filter_ids => assert(keys[1] == k),
                Staffs::filter_name => assert(keys[2] == k),
                Staffs::page => assert(keys[3] == k),
                Staffs::per_page => assert(keys[4] == k),
                Staffs::sort_id => assert(keys[5] == k),
                Staffs::Invalid => assert(forall|i: int| 0 <= i < keys.len() ==> keys[i] != k),
            }
        }
    }
}

} // verus!

