//! Types for the VATSIM Connect (`OAuth2`) API.
//!
//! These model the responses from the
//! [Connect API](https://vatsim.dev/api/connect-api), specifically the
//! [user details](https://vatsim.dev/api/connect-api/get-user) endpoint
//! (`GET /api/user`).

use vstd::prelude::*;

use crate::types::datafeed::{clone_opt_string, clone_strings};
use crate::types::CertificateId;

verus! {

/// Response from `GET /api/user`, wrapping the user data in a `data` field.
#[derive(Debug, PartialEq, Eq)]
pub struct ConnectUserResponse {
    /// The user record.
    pub data: ConnectUser,
}

impl View for ConnectUserResponse {
    type V = ConnectUserResponse;

    open spec fn view(&self) -> ConnectUserResponse {
        *self
    }
}

impl Clone for ConnectUserResponse {
    fn clone(&self) -> (r: ConnectUserResponse)
        ensures
            r == *self,
    {
        ConnectUserResponse {
            data: self.data.clone(),
        }
    }
}

/// A VATSIM user as returned by the Connect `/api/user` endpoint.
#[derive(Debug, PartialEq, Eq)]
pub struct ConnectUser {
    /// VATSIM Certificate ID (CID), serialized as a string.
    pub cid: CertificateId,
    /// Name, email and country, subject to the scopes granted.
    pub personal: PersonalDetails,
    /// Ratings, region, division and subdivision.
    pub vatsim: VatsimDetails,
    /// Validity of the token used to make the request.
    pub oauth: OAuthInfo,
}

impl View for ConnectUser {
    type V = ConnectUser;

    open spec fn view(&self) -> ConnectUser {
        *self
    }
}

impl Clone for ConnectUser {
    fn clone(&self) -> (r: ConnectUser)
        ensures
            r == *self,
    {
        ConnectUser {
            cid: self.cid,
            personal: self.personal.clone(),
            vatsim: self.vatsim.clone(),
            oauth: self.oauth.clone(),
        }
    }
}

/// Personal details of a VATSIM user.
#[derive(Debug, PartialEq, Eq)]
pub struct PersonalDetails {
    /// Given name.
    pub name_first: String,
    /// Family name.
    pub name_last: String,
    /// Full name as VATSIM renders it.
    pub name_full: String,
    /// Email address. Present only if the `email` scope was granted.
    pub email: Option<String>,
    /// Country of residence. Present only if the `country` scope was granted.
    pub country: Option<CountryInfo>,
}

impl View for PersonalDetails {
    type V = PersonalDetails;

    open spec fn view(&self) -> PersonalDetails {
        *self
    }
}

impl Clone for PersonalDetails {
    fn clone(&self) -> (r: PersonalDetails)
        ensures
            r == *self,
    {
        PersonalDetails {
            name_first: self.name_first.clone(),
            name_last: self.name_last.clone(),
            name_full: self.name_full.clone(),
            email: clone_opt_string(&self.email),
            country: match &self.country {
                Some(x) => Some(x.clone()),
                None => None,
            },
        }
    }
}

/// Country of residence.
#[derive(Debug, PartialEq, Eq)]
pub struct CountryInfo {
    /// ISO 3166-1 alpha-2 country code, e.g. `"AT"`.
    pub id: String,
    /// Country name, e.g. `"Austria"`.
    pub name: String,
}

impl View for CountryInfo {
    type V = CountryInfo;

    open spec fn view(&self) -> CountryInfo {
        *self
    }
}

impl Clone for CountryInfo {
    fn clone(&self) -> (r: CountryInfo)
        ensures
            r == *self,
    {
        CountryInfo {
            id: self.id.clone(),
            name: self.name.clone(),
        }
    }
}

/// VATSIM-specific details (ratings, region, division, subdivision).
#[derive(Debug, PartialEq, Eq)]
pub struct VatsimDetails {
    /// ATC rating.
    pub rating: ConnectRatingInfo,
    /// Pilot rating.
    pub pilotrating: ConnectRatingInfo,
    /// VATSIM region, e.g. `"EMEA"`.
    pub region: NamedInfo,
    /// VATSIM division, e.g. `"EUD"`.
    pub division: NamedInfo,
    /// VATSIM subdivision, e.g. `"AUS"`. Absent for users not in one.
    pub subdivision: Option<NamedInfo>,
}

impl View for VatsimDetails {
    type V = VatsimDetails;

    open spec fn view(&self) -> VatsimDetails {
        *self
    }
}

impl Clone for VatsimDetails {
    fn clone(&self) -> (r: VatsimDetails)
        ensures
            r == *self,
    {
        VatsimDetails {
            rating: self.rating.clone(),
            pilotrating: self.pilotrating.clone(),
            region: self.region.clone(),
            division: self.division.clone(),
            subdivision: match &self.subdivision {
                Some(x) => Some(x.clone()),
                None => None,
            },
        }
    }
}

/// A rating with numeric ID, short code, and long name.
#[derive(Debug, PartialEq, Eq)]
pub struct ConnectRatingInfo {
    /// Numeric rating ID.
    pub id: i8,
    /// Short code, e.g. `"C1"`.
    pub short: String,
    /// Full name, e.g. `"Enroute"`.
    pub long: String,
}

impl View for ConnectRatingInfo {
    type V = ConnectRatingInfo;

    open spec fn view(&self) -> ConnectRatingInfo {
        *self
    }
}

impl Clone for ConnectRatingInfo {
    fn clone(&self) -> (r: ConnectRatingInfo)
        ensures
            r == *self,
    {
        ConnectRatingInfo {
            id: self.id,
            short: self.short.clone(),
            long: self.long.clone(),
        }
    }
}

/// A named entity with string ID and name (region, division, subdivision).
#[derive(Debug, PartialEq, Eq)]
pub struct NamedInfo {
    /// Identifier, e.g. `"EMEA"`. Absent if VATSIM did not report one.
    pub id: Option<String>,
    /// Human-readable name. Absent if VATSIM did not report one.
    pub name: Option<String>,
}

impl View for NamedInfo {
    type V = NamedInfo;

    open spec fn view(&self) -> NamedInfo {
        *self
    }
}

impl Clone for NamedInfo {
    fn clone(&self) -> (r: NamedInfo)
        ensures
            r == *self,
    {
        NamedInfo {
            id: clone_opt_string(&self.id),
            name: clone_opt_string(&self.name),
        }
    }
}

/// OAuth token validity info returned inside the user response.
#[derive(Debug, PartialEq, Eq)]
pub struct OAuthInfo {
    /// Whether the access token is still valid, as the string `"true"` or `"false"`.
    pub token_valid: String,
}

impl View for OAuthInfo {
    type V = OAuthInfo;

    open spec fn view(&self) -> OAuthInfo {
        *self
    }
}

impl Clone for OAuthInfo {
    fn clone(&self) -> (r: OAuthInfo)
        ensures
            r == *self,
    {
        OAuthInfo {
            token_valid: self.token_valid.clone(),
        }
    }
}

/// Token response from `POST /oauth/token`.
#[derive(Debug, PartialEq, Eq)]
pub struct TokenResponse {
    /// Token type, always `"Bearer"`.
    pub token_type: String,
    /// Lifetime of the access token in seconds.
    pub expires_in: u64,
    /// Token to send as `Authorization: Bearer <token>`.
    pub access_token: String,
    /// Token for obtaining a new access token once this one expires.
    pub refresh_token: String,
    /// Scopes actually granted, which may be narrower than those requested.
    pub scopes: Vec<String>,
}

/// The mathematical value of a [`TokenResponse`]: its lists are taken by their contents.
pub struct TokenResponseView {
    pub token_type: String,
    pub expires_in: u64,
    pub access_token: String,
    pub refresh_token: String,
    pub scopes: Seq<String>,
}

impl View for TokenResponse {
    type V = TokenResponseView;

    open spec fn view(&self) -> TokenResponseView {
        TokenResponseView {
            token_type: self.token_type,
            expires_in: self.expires_in,
            access_token: self.access_token,
            refresh_token: self.refresh_token,
            scopes: self.scopes@,
        }
    }
}

impl Clone for TokenResponse {
    fn clone(&self) -> (r: TokenResponse)
        ensures
            r@ == self@,
    {
        TokenResponse {
            token_type: self.token_type.clone(),
            expires_in: self.expires_in,
            access_token: self.access_token.clone(),
            refresh_token: self.refresh_token.clone(),
            scopes: clone_strings(&self.scopes),
        }
    }
}

/// OAuth error response.
#[derive(Debug, PartialEq, Eq)]
pub struct OAuthError {
    /// Machine-readable error code, e.g. `"invalid_grant"`.
    pub error: String,
    /// Human-readable description of the failure.
    pub error_description: Option<String>,
    /// Alternative message field used by some VATSIM error responses.
    pub message: Option<String>,
    /// Additional hint about how to correct the request.
    pub hint: Option<String>,
}

impl View for OAuthError {
    type V = OAuthError;

    open spec fn view(&self) -> OAuthError {
        *self
    }
}

impl Clone for OAuthError {
    fn clone(&self) -> (r: OAuthError)
        ensures
            r == *self,
    {
        OAuthError {
            error: self.error.clone(),
            error_description: clone_opt_string(&self.error_description),
            message: clone_opt_string(&self.message),
            hint: clone_opt_string(&self.hint),
        }
    }
}

} // verus!
