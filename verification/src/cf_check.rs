//! The check of the DNS provider's credentials: may the token edit the DNS
//! records of the zone?
//!
//! The provider is asked for the zones that the token can see. The answer
//! is judged here: the listing must have succeeded, a zone of the wanted
//! name must be in it, and the token must hold the permission to edit that
//! zone's DNS records.

use crate::error::{Error, ErrorKind, ErrorView};
use crate::text::same_text;
use vstd::prelude::*;

verus! {

/// The root of the provider's interface.
pub const API_BASE: &'static str = "https://api.cloudflare.com/client/v4";

/// The permission that lets a token edit the DNS records of a zone.
pub const EDIT_PERMISSION: &'static str = "#dns_records:edit";

/// The request for the zones that a token can see.
#[derive(Debug, Clone, PartialEq, Eq)]
pub struct ZonesRequest {
    /// Where to send the request, with the method `GET`.
    pub url: String,
    /// The value of the header `X-Auth-Email`.
    pub auth_email: String,
    /// The value of the header `Authorization`.
    pub authorization: String,
    /// The value of the header `Content-Type`.
    pub content_type: String,
}

/// One zone of the provider's answer.
#[derive(Debug, Clone, PartialEq, Eq)]
pub struct Zone {
    pub name: String,
    pub id: String,
    pub permissions: Vec<String>,
}

/// The mathematical value of a [`Zone`].
pub struct ZoneView {
    pub name: Seq<char>,
    pub id: Seq<char>,
    pub permissions: Seq<Seq<char>>,
}

impl View for Zone {
    type V = ZoneView;

    open spec fn view(&self) -> ZoneView {
        ZoneView {
            name: self.name@,
            id: self.id@,
            permissions: self.permissions@.map_values(|p: String| p@),
        }
    }
}

/// The provider's answer to the request for the zones.
#[derive(Debug, Clone, PartialEq, Eq)]
pub struct ZoneListing {
    /// Whether the provider accepted the request.
    pub success: bool,
    /// The provider's errors, as the text to show.
    pub errors: String,
    /// The zones that the token can see.
    pub result: Vec<Zone>,
}

/// The mathematical value of a [`ZoneListing`].
pub struct ZoneListingView {
    pub success: bool,
    pub errors: Seq<char>,
    pub result: Seq<ZoneView>,
}

impl View for ZoneListing {
    type V = ZoneListingView;

    open spec fn view(&self) -> ZoneListingView {
        ZoneListingView {
            success: self.success,
            errors: self.errors@,
            result: self.result@.map_values(|z: Zone| z@),
        }
    }
}

/// A refusal by the provider.
pub open spec fn cf_failure(message: Seq<char>) -> ErrorView {
    ErrorView { kind: ErrorKind::CfError, message }
}

/// The failure when the provider could not be reached.
pub open spec fn unreachable_failure() -> ErrorView {
    cf_failure("Error getting information"@)
}

/// The failure when the token sees no zone of the wanted name.
pub open spec fn unknown_zone_failure(zone: Seq<char>) -> ErrorView {
    cf_failure("Token does not have any zone called "@ + zone)
}

/// The failure when the token may not edit the zone's DNS records.
pub open spec fn no_access_failure(zone: Seq<char>) -> ErrorView {
    cf_failure("Token does not have read or edit access to zone "@ + zone)
}

/// The first zone of the name `name`, if there is one.
pub open spec fn find_zone(zones: Seq<ZoneView>, name: Seq<char>) -> Option<ZoneView>
    decreases zones.len(),
{
    if zones.len() == 0 {
        None
    } else if zones[0].name == name {
        Some(zones[0])
    } else {
        find_zone(zones.drop_first(), name)
    }
}

/// Whether the token may edit the DNS records of a zone.
pub open spec fn may_edit(zone: ZoneView) -> bool {
    zone.permissions.contains(EDIT_PERMISSION@)
}

/// The verdict on a token, given the provider's answer.
pub open spec fn verdict(listing: ZoneListingView, zone: Seq<char>) -> Result<(), ErrorView> {
    if !listing.success {
        Err(cf_failure(listing.errors))
    } else {
        match find_zone(listing.result, zone) {
            None => Err(unknown_zone_failure(zone)),
            Some(found) => if may_edit(found) {
                Ok(())
            } else {
                Err(no_access_failure(zone))
            },
        }
    }
}

/// The view of a verdict.
pub open spec fn verdict_view(r: Result<(), Error>) -> Result<(), ErrorView> {
    match r {
        Ok(_) => Ok(()),
        Err(e) => Err(e@),
    }
}

/// The request that lists the zones of `token`, for the account of
/// `email`.
pub fn zones_request(token: &str, email: &str) -> (r: ZonesRequest)
    ensures
        r.url@ == API_BASE@ + "/zones"@,
        r.auth_email@ == email@,
        r.authorization@ == "Bearer "@ + token@,
        r.content_type@ == "application/json"@,
{
    let mut url = String::from_str(API_BASE);
    url.append("/zones");
    let mut authorization = String::from_str("Bearer ");
    authorization.append(token);
    ZonesRequest {
        url,
        auth_email: String::from_str(email),
        authorization,
        content_type: String::from_str("application/json"),
    }
}

/// The failure to report when the provider could not be reached.
pub fn request_failed() -> (r: Error)
    ensures
        r@ == unreachable_failure(),
{
    Error::new(ErrorKind::CfError, String::from_str("Error getting information"))
}

/// A refusal whose message is `context` and the zone's name.
fn cf_failed(context: &str, zone: &str) -> (r: Error)
    ensures
        r@ == cf_failure(context@ + zone@),
{
    let mut message = String::from_str(context);
    message.append(zone);
    Error::new(ErrorKind::CfError, message)
}

impl Zone {
    /// Whether the token may edit the DNS records of this zone.
    pub fn may_edit(&self) -> (r: bool)
        ensures
            r == may_edit(self@),
    {
        let ghost permissions = self@.permissions;
        let mut i: usize = 0;
        while i < self.permissions.len()
            invariant
                i <= self.permissions.len(),
                permissions == self@.permissions,
                permissions.len() == self.permissions.len(),
                forall|j: int| 0 <= j < i ==> permissions[j] != EDIT_PERMISSION@,
            decreases self.permissions.len() - i,
        {
            if same_text(self.permissions[i].as_str(), EDIT_PERMISSION) {
                assert(permissions[i as int] == EDIT_PERMISSION@);
                return true;
            }
            i += 1;
        }
        false
    }
}

/// Judges the provider's answer: `Ok` when the listing succeeded, holds a
/// zone called `zone`, and the token may edit the DNS records of the first
/// such zone.
pub fn check_cf(listing: &ZoneListing, zone: &str) -> (r: Result<(), Error>)
    ensures
        verdict_view(r) == verdict(listing@, zone@),
{
    if !listing.success {
        return Err(Error::new(ErrorKind::CfError, listing.errors.clone()));
    }
    let ghost zones = listing@.result;
    let mut i: usize = 0;
    assert(zones.skip(0) =~= zones);
    while i < listing.result.len()
        invariant
            listing.success,
            i <= listing.result.len(),
            zones == listing@.result,
            zones.len() == listing.result.len(),
            find_zone(zones, zone@) == find_zone(zones.skip(i as int), zone@),
        decreases listing.result.len() - i,
    {
        let candidate = &listing.result[i];
        proof {
            let rest = zones.skip(i as int);
            assert(rest[0] == candidate@);
            assert(rest.drop_first() =~= zones.skip(i + 1));
        }
        if same_text(candidate.name.as_str(), zone) {
            if candidate.may_edit() {
                return Ok(());
            } else {
                return Err(
                    cf_failed("Token does not have read or edit access to zone ", zone),
                );
            }
        }
        i += 1;
    }
    Err(cf_failed("Token does not have any zone called ", zone))
}

/// What [`find_zone`] finds is the first zone of that name; it finds
/// nothing only when no zone has the name.
pub proof fn lemma_find_zone_is_first(zones: Seq<ZoneView>, name: Seq<char>)
    ensures
        match find_zone(zones, name) {
            None => forall|i: int| 0 <= i < zones.len() ==> zones[i].name != name,
            Some(found) => exists|i: int|
                0 <= i < zones.len() && zones[i] == found && found.name == name && forall|j: int|
                    0 <= j < i ==> zones[j].name != name,
        },
    decreases zones.len(),
{
    if zones.len() > 0 && zones[0].name != name {
        let rest = zones.drop_first();
        lemma_find_zone_is_first(rest, name);
        match find_zone(rest, name) {
            None => {
                assert forall|i: int| 0 <= i < zones.len() implies zones[i].name != name by {
                    if i > 0 {
                        assert(zones[i] == rest[i - 1]);
                    }
                }
            },
            Some(found) => {
                let k = choose|i: int|
                    0 <= i < rest.len() && rest[i] == found && found.name == name && forall|j: int|
                        0 <= j < i ==> rest[j].name != name;
                assert forall|j: int| 0 <= j < k + 1 implies zones[j].name != name by {
                    if j > 0 {
                        assert(zones[j] == rest[j - 1]);
                    }
                }
                assert(zones[k + 1] == found);
            },
        }
    } else if zones.len() > 0 {
        assert(zones[0] == find_zone(zones, name)->0);
    }
}

/// A token that sees no zone of the wanted name is refused, and the
/// refusal ends with the name of the zone.
pub proof fn lemma_unknown_zone_is_refused(listing: ZoneListingView, zone: Seq<char>)
    requires
        listing.success,
        forall|i: int| 0 <= i < listing.result.len() ==> listing.result[i].name != zone,
    ensures
        verdict(listing, zone) == Err::<(), ErrorView>(unknown_zone_failure(zone)),
        crate::text::is_suffix(unknown_zone_failure(zone).message, zone),
{
    lemma_find_zone_is_first(listing.result, zone);
    let message = unknown_zone_failure(zone).message;
    assert(message.subrange(message.len() - zone.len(), message.len() as int) =~= zone);
}

/// A token that may not edit the DNS records of the zone is refused.
pub proof fn lemma_missing_permission_is_refused(
    listing: ZoneListingView,
    zone: Seq<char>,
    found: ZoneView,
)
    requires
        listing.success,
        find_zone(listing.result, zone) == Some(found),
        !may_edit(found),
    ensures
        verdict(listing, zone) == Err::<(), ErrorView>(no_access_failure(zone)),
{
}

/// The verdict is `Ok` in one case only: the listing succeeded and the
/// first zone of the wanted name may be edited.
pub proof fn lemma_accepted_means_may_edit(listing: ZoneListingView, zone: Seq<char>)
    ensures
        verdict(listing, zone) is Ok <==> listing.success && (find_zone(listing.result, zone)
            matches Some(found) && may_edit(found)),
{
}

} // verus!
