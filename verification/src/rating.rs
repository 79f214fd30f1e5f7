//! What a user thinks of an item, and the requests that read and store it.

use vstd::prelude::*;
use vstd::string::*;

use crate::web_url::{join_model, opt_url, Url};

verus! {

/// A user's rating of an item.
#[derive(Debug, Clone, Copy, PartialEq, Eq, Structural)]
pub enum Rating {
    Liked,
    Loved,
}

/// The rating that an item has, if it has one.
#[derive(Debug, Clone, PartialEq, Eq)]
pub struct RatingInfo {
    pub meta_id: String,
    pub status: Option<Rating>,
}

/// Asks for the rating that a user gave an item.
#[derive(Debug, Clone, PartialEq, Eq)]
pub struct RatingGetStatusRequest {
    pub auth_key: String,
    pub meta_item_id: String,
    pub meta_item_type: String,
}

/// The body of the request that stores a rating.
#[derive(Debug, Clone, PartialEq, Eq)]
pub struct RatingSendRequestBody {
    pub auth_token: String,
    pub media_id: String,
    pub media_type: String,
    pub status: Option<Rating>,
}

/// Stores the rating that a user gives an item, or removes it.
#[derive(Debug, Clone, PartialEq, Eq)]
pub struct RatingSendRequest {
    pub auth_key: String,
    pub meta_item_id: String,
    pub meta_item_type: String,
    pub rating: Option<Rating>,
}

/// The answer to a request for a rating.
#[derive(Debug, Clone, PartialEq, Eq)]
pub struct RatingGetStatusResponse {
    pub status: Option<Rating>,
}

/// The rating that was stored.
#[derive(Debug, Clone, PartialEq, Eq)]
pub struct RatingSendResponseRating {
    pub status: Rating,
}

/// The answer to a request that stores a rating.
#[derive(Debug, Clone, PartialEq, Eq)]
pub struct RatingSendResponse {
    pub message: String,
    pub rating: Option<RatingSendResponseRating>,
    pub action: Option<String>,
}

/// The reference of the endpoint that tells a rating, relative to the
/// ratings service. The three values stand in the query as they are.
pub open spec fn get_status_reference(
    auth_key: Seq<char>,
    meta_item_id: Seq<char>,
    meta_item_type: Seq<char>,
) -> Seq<char> {
    "api/get_status?authToken="@ + auth_key + "&mediaId="@ + meta_item_id + "&mediaType="@
        + meta_item_type
}

impl RatingGetStatusRequest {
    /// The reference of the endpoint, relative to the ratings service.
    pub fn reference(&self) -> (r: String)
        ensures
            r@ == get_status_reference(self.auth_key@, self.meta_item_id@, self.meta_item_type@),
    {
        let mut out = String::from_str("api/get_status?authToken=");
        out.append(self.auth_key.as_str());
        out.append("&mediaId=");
        out.append(self.meta_item_id.as_str());
        out.append("&mediaType=");
        out.append(self.meta_item_type.as_str());
        out
    }

    /// Where the request goes, given the URL of the ratings service.
    pub fn endpoint(&self, api_url: &Url) -> (r: Option<Url>)
        ensures
            opt_url(r) == join_model(
                api_url@,
                get_status_reference(self.auth_key@, self.meta_item_id@, self.meta_item_type@),
            ),
    {
        let reference = self.reference();
        api_url.join(reference.as_str())
    }
}

impl RatingSendRequest {
    /// Where the request goes, given the URL of the ratings service.
    pub fn endpoint(&self, api_url: &Url) -> (r: Option<Url>)
        ensures
            opt_url(r) == join_model(api_url@, "api/send"@),
    {
        api_url.join("api/send")
    }

    /// What the request carries.
    pub fn body(&self) -> (r: RatingSendRequestBody)
        ensures
            r.auth_token@ == self.auth_key@,
            r.media_id@ == self.meta_item_id@,
            r.media_type@ == self.meta_item_type@,
            r.status == self.rating,
    {
        RatingSendRequestBody {
            auth_token: self.auth_key.clone(),
            media_id: self.meta_item_id.clone(),
            media_type: self.meta_item_type.clone(),
            status: self.rating,
        }
    }
}

} // verus!
