use vstd::prelude::*;
use crate::text::{push_char, push_decimal, decimal_text};
use crate::monument::Coordinate;

verus! {

/// A license as the licenses method describes it.
pub struct License {
    pub id: i32,
    pub name: String,
    pub url: Option<String>,
}

pub struct Licenses {
    pub license: Vec<License>,
}

/// The response of the licenses method.
pub struct LicensesPayload {
    pub licenses: Licenses,
}

pub struct Place {
    pub place_id: String,
}

pub struct Places {
    pub place: Vec<Place>,
}

/// The response of the place lookup by coordinates.
pub struct FindByLatLonPayload {
    pub places: Places,
}

/// Why a place lookup found no place.
pub enum FindByLatLonError {
    /// The request or its response failed.
    RequestError(String),
    /// The service knows no place at the coordinates.
    NoMatchingPlace,
}

pub struct Owner {
    pub username: String,
}

/// The details of a photo.
pub struct PhotoInfo {
    pub id: String,
    pub originalsecret: String,
    pub license: i32,
    pub owner: Owner,
}

/// The response of the photo details method.
pub struct GetInfoPhotoPayload {
    pub photo: PhotoInfo,
}

/// A photo as the search method lists it.
pub struct Photo {
    pub id: String,
    pub secret: String,
    pub server: String,
    pub farm: i32,
}

pub struct Photos {
    pub photo: Vec<Photo>,
}

/// The response of the photo search method.
pub struct SearchPhotosPayload {
    pub photos: Photos,
}

/// The address of the licenses method.
pub open spec fn licenses_url(key: Seq<char>) -> Seq<char> {
    "https://api.flickr.com/services/rest/?method=flickr.photos.licenses.getInfo&api_key="@ + key
        + "&format=json&nojsoncallback=1"@
}

/// The address of the place lookup at the given coordinates.
pub open spec fn place_url(key: Seq<char>, lat: Seq<char>, lon: Seq<char>) -> Seq<char> {
    "https://api.flickr.com/services/rest/?method=flickr.places.findByLatLon&api_key="@ + key
        + "&lat="@ + lat + "&lon="@ + lon + "&format=json&nojsoncallback=1"@
}

/// The address of the details of the photo `photo_id`.
pub open spec fn photo_info_url(key: Seq<char>, photo_id: Seq<char>) -> Seq<char> {
    "https://api.flickr.com/services/rest/?method=flickr.photos.getInfo&api_key="@ + key
        + "&photo_id="@ + photo_id + "&format=json&nojsoncallback=1"@
}

/// The address of a search for `text` among freely licensed photos, ten at
/// most, in the place `place_id` (no place when it is empty).
pub open spec fn photo_search_url(key: Seq<char>, text: Seq<char>, place_id: Seq<char>) -> Seq<char> {
    "https://api.flickr.com/services/rest/?method=flickr.photos.search&per_page=10&api_key="@ + key
        + "&text="@ + text + "&license=1%2C2%2C3%2C4%2C5%2C6%2C7%2C9%2C10&place_id="@ + place_id
        + "&format=json&nojsoncallback=1"@
}

/// The address of the full-size image of a photo.
pub open spec fn image_url(farm: int, server: Seq<char>, id: Seq<char>, secret: Seq<char>) -> Seq<char> {
    "https://farm"@ + decimal_text(farm) + ".staticflickr.com/"@ + server + "/"@ + id + "_"@ + secret
        + "_o.jpg"@
}

/// Search text with each space written as `+`.
pub open spec fn query_text(s: Seq<char>) -> Seq<char> {
    s.map_values(|c: char| if c == ' ' { '+' } else { c })
}

pub fn licenses_request(key: &str) -> (r: String)
    ensures
        r@ == licenses_url(key@),
{
    let mut u = String::from_str("https://api.flickr.com/services/rest/?method=flickr.photos.licenses.getInfo&api_key=");
    u.append(key);
    u.append("&format=json&nojsoncallback=1");
    u
}

pub fn place_request(key: &str, lat: &Coordinate, lon: &Coordinate) -> (r: String)
    ensures
        r@ == place_url(key@, lat@, lon@),
{
    let mut u = String::from_str("https://api.flickr.com/services/rest/?method=flickr.places.findByLatLon&api_key=");
    u.append(key);
    u.append("&lat=");
    u.append(lat.as_str());
    u.append("&lon=");
    u.append(lon.as_str());
    u.append("&format=json&nojsoncallback=1");
    u
}

pub fn photo_info_request(key: &str, photo_id: &str) -> (r: String)
    ensures
        r@ == photo_info_url(key@, photo_id@),
{
    let mut u = String::from_str("https://api.flickr.com/services/rest/?method=flickr.photos.getInfo&api_key=");
    u.append(key);
    u.append("&photo_id=");
    u.append(photo_id);
    u.append("&format=json&nojsoncallback=1");
    u
}

pub fn photo_search_request(key: &str, text: &str, place_id: &str) -> (r: String)
    ensures
        r@ == photo_search_url(key@, text@, place_id@),
{
    let mut u = String::from_str("https://api.flickr.com/services/rest/?method=flickr.photos.search&per_page=10&api_key=");
    u.append(key);
    u.append("&text=");
    u.append(text);
    u.append("&license=1%2C2%2C3%2C4%2C5%2C6%2C7%2C9%2C10&place_id=");
    u.append(place_id);
    u.append("&format=json&nojsoncallback=1");
    u
}

/// The address of the full-size image of a photo, from the photo's farm,
/// server and id and the secret of the full-size image.
pub fn image_address(farm: i32, server: &str, id: &str, secret: &str) -> (r: String)
    ensures
        r@ == image_url(farm as int, server@, id@, secret@),
{
    let mut u = String::from_str("https://farm");
    push_decimal(&mut u, farm);
    u.append(".staticflickr.com/");
    u.append(server);
    u.append("/");
    u.append(id);
    u.append("_");
    u.append(secret);
    u.append("_o.jpg");
    u
}

/// Writes each space of the search text as `+`.
pub fn search_text(s: &str) -> (r: String)
    ensures
        r@ == query_text(s@),
{
    let n = s.unicode_len();
    let mut out = String::new();
    let mut i: usize = 0;
    while i < n
        invariant
            n == s@.len(),
            i <= n,
            out@ == query_text(s@.subrange(0, i as int)),
        decreases n - i,
    {
        let c = s.get_char(i);
        push_char(&mut out, if c == ' ' { '+' } else { c });
        assert(s@.subrange(0, i + 1) == s@.subrange(0, i as int).push(c));
        assert(query_text(s@.subrange(0, i + 1)) == query_text(s@.subrange(0, i as int)).push(if c == ' ' { '+' } else { c }));
        i = i + 1;
    }
    assert(s@.subrange(0, n as int) == s@);
    out
}

/// The licenses in a response of the licenses method.
pub open spec fn licenses_of(resp: Result<LicensesPayload, String>) -> Result<Vec<License>, String> {
    match resp {
        Ok(p) => Ok(p.licenses.license),
        Err(e) => Err(e),
    }
}

/// Fetches the license catalog. `fetch` performs the request at the address
/// it is given and decodes the response; its outcome decides the result.
pub fn get_licenses<F>(key: &str, fetch: F) -> (r: Result<Vec<License>, String>)
    where
        F: Fn(String) -> Result<LicensesPayload, String>,
    requires
        forall|u: String| fetch.requires((u,)),
    ensures
        exists|u: String, resp: Result<LicensesPayload, String>|
            u@ == licenses_url(key@) && fetch.ensures((u,), resp) && r == licenses_of(resp),
{
    let u = licenses_request(key);
    let ghost url = u;
    let resp = fetch(u);
    let ghost got = resp;
    match resp {
        Ok(p) => Ok(p.licenses.license),
        Err(e) => Err(e),
    }
}

/// What a place lookup gives for a response: the first place found, no
/// place, or the failure of the request.
pub open spec fn place_of(resp: Result<FindByLatLonPayload, String>, r: Result<String, FindByLatLonError>) -> bool {
    match resp {
        Ok(p) => if p.places.place.len() > 0 {
            r matches Ok(id) && id@ == p.places.place[0].place_id@
        } else {
            r matches Err(FindByLatLonError::NoMatchingPlace)
        },
        Err(e) => r == Err::<String, FindByLatLonError>(FindByLatLonError::RequestError(e)),
    }
}

/// Looks up the place at the given coordinates. `fetch` performs the
/// request at the address it is given and decodes the response; no place at
/// the coordinates is `NoMatchingPlace`, not a failure of the request.
pub fn get_place<F>(key: &str, lat: &Coordinate, lng: &Coordinate, fetch: F) -> (r: Result<String, FindByLatLonError>)
    where
        F: Fn(String) -> Result<FindByLatLonPayload, String>,
    requires
        forall|u: String| fetch.requires((u,)),
    ensures
        exists|u: String, resp: Result<FindByLatLonPayload, String>|
            u@ == place_url(key@, lat@, lng@) && fetch.ensures((u,), resp) && place_of(resp, r),
{
    let u = place_request(key, lat, lng);
    let ghost url = u;
    let resp = fetch(u);
    let ghost got = resp;
    match resp {
        Ok(p) => {
            if p.places.place.len() > 0 {
                Ok(p.places.place[0].place_id.clone())
            } else {
                Err(FindByLatLonError::NoMatchingPlace)
            }
        },
        Err(e) => Err(FindByLatLonError::RequestError(e)),
    }
}

/// The photo details in a response of the details method.
pub open spec fn photo_info_of(resp: Result<GetInfoPhotoPayload, String>) -> Result<PhotoInfo, String> {
    match resp {
        Ok(p) => Ok(p.photo),
        Err(e) => Err(e),
    }
}

/// Fetches the details of the photo `photo_id`. `fetch` performs the
/// request at the address it is given and decodes the response.
pub fn get_photo_info<F>(key: &str, photo_id: &str, fetch: F) -> (r: Result<PhotoInfo, String>)
    where
        F: Fn(String) -> Result<GetInfoPhotoPayload, String>,
    requires
        forall|u: String| fetch.requires((u,)),
    ensures
        exists|u: String, resp: Result<GetInfoPhotoPayload, String>|
            u@ == photo_info_url(key@, photo_id@) && fetch.ensures((u,), resp) && r == photo_info_of(resp),
{
    let u = photo_info_request(key, photo_id);
    let ghost url = u;
    let resp = fetch(u);
    let ghost got = resp;
    match resp {
        Ok(p) => Ok(p.photo),
        Err(e) => Err(e),
    }
}

/// The photos in a response of the search method.
pub open spec fn photos_of(resp: Result<SearchPhotosPayload, String>) -> Result<Vec<Photo>, String> {
    match resp {
        Ok(p) => Ok(p.photos.photo),
        Err(e) => Err(e),
    }
}

/// That `r` is an outcome of the search at the address `url`.
pub open spec fn searched<F: Fn(String) -> Result<SearchPhotosPayload, String>>(search: F, url: Seq<char>, r: Result<Vec<Photo>, String>) -> bool {
    exists|u: String, resp: Result<SearchPhotosPayload, String>|
        u@ == url && search.ensures((u,), resp) && r == photos_of(resp)
}

/// Searches photos of `search_str` twice, within the place `place_id` (no
/// search, and an empty list, when there is no place) and without place,
/// and merges the two outcomes by `resolve_smallest_photos`. `search`
/// performs the request at the address it is given and decodes the
/// response.
pub fn search_photos<F>(key: &str, search_str: &str, place_id: Option<String>, search: F) -> (r: Result<Vec<Photo>, String>)
    where
        F: Fn(String) -> Result<SearchPhotosPayload, String>,
    requires
        forall|u: String| search.requires((u,)),
    ensures
        exists|with_place: Result<Vec<Photo>, String>, without_place: Result<Vec<Photo>, String>|
            {
                &&& match place_id {
                    Some(pid) => searched(search, photo_search_url(key@, query_text(search_str@), pid@), with_place),
                    None => with_place matches Ok(v) && v@.len() == 0,
                }
                &&& searched(search, photo_search_url(key@, query_text(search_str@), Seq::empty()), without_place)
                &&& r == merged_search(with_place, without_place)
            },
{
    let text = search_text(search_str);
    let with_place = match place_id {
        Some(pid) => {
            let u = photo_search_request(key, text.as_str(), pid.as_str());
            let ghost url = u;
            let resp = search(u);
            let ghost got = resp;
            let out = match resp {
                Ok(p) => Ok(p.photos.photo),
                Err(e) => Err(e),
            };
            assert(searched(search, url@, out));
            out
        },
        None => Ok(Vec::new()),
    };
    let u = photo_search_request(key, text.as_str(), "");
    let ghost url = u;
    proof {
        reveal_strlit("");
    }
    let resp = search(u);
    let ghost got = resp;
    let without_place = match resp {
        Ok(p) => Ok(p.photos.photo),
        Err(e) => Err(e),
    };
    assert(searched(search, url@, without_place));
    let ghost w = with_place;
    let ghost wo = without_place;
    resolve_smallest_photos(with_place, without_place)
}

/// The result that the merge rule keeps of a search constrained to a place
/// (`with_place`) and an unconstrained one (`without_place`).
pub open spec fn merged_search<T, E>(with_place: Result<Vec<T>, E>, without_place: Result<Vec<T>, E>) -> Result<Vec<T>, E> {
    match (with_place, without_place) {
        (Err(_), _) => without_place,
        (Ok(_), Err(_)) => with_place,
        (Ok(a), Ok(b)) => {
            if a.len() == 0 {
                without_place
            } else if b.len() == 0 {
                with_place
            } else if b.len() < a.len() {
                without_place
            } else {
                with_place
            }
        },
    }
}

/// Merges the outcomes of the place-constrained and the unconstrained
/// search: a failure gives way to a success (both failing gives the
/// unconstrained failure); an empty list gives way to the other list;
/// otherwise the shorter list wins, the place-constrained one on a tie.
pub fn resolve_smallest_photos(
    with_place: Result<Vec<Photo>, String>,
    without_place: Result<Vec<Photo>, String>,
) -> (r: Result<Vec<Photo>, String>)
    ensures
        r == merged_search(with_place, without_place),
{
    match (&with_place, &without_place) {
        (Err(_), _) => without_place,
        (Ok(_), Err(_)) => with_place,
        (Ok(a), Ok(b)) => {
            if a.len() == 0 {
                without_place
            } else if b.len() == 0 {
                with_place
            } else if b.len() < a.len() {
                without_place
            } else {
                with_place
            }
        },
    }
}

} // verus!
