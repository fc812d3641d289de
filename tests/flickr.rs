use std::cell::RefCell;
use whlp::flickr::{
    get_licenses, get_photo_info, get_place, image_address, photo_search_request, resolve_smallest_photos,
    search_photos, search_text, FindByLatLonError, FindByLatLonPayload, GetInfoPhotoPayload, License, Licenses,
    LicensesPayload, Owner, Photo, PhotoInfo, Photos, Place, Places, SearchPhotosPayload,
};
use whlp::monument::Coordinate;

fn photos(n: usize, tag: &str) -> Vec<Photo> {
    (0..n)
        .map(|i| Photo { id: format!("{}{}", tag, i), secret: "s".to_string(), server: "1".to_string(), farm: 1 })
        .collect()
}

fn ids(r: &Result<Vec<Photo>, String>) -> Vec<String> {
    r.as_ref().unwrap().iter().map(|p| p.id.clone()).collect()
}

#[test]
fn merge_prefers_shorter_place_list() {
    let r = resolve_smallest_photos(Ok(photos(2, "p")), Ok(photos(5, "u")));
    assert_eq!(ids(&r), vec!["p0", "p1"]);
}

#[test]
fn merge_falls_back_when_place_list_is_empty() {
    let r = resolve_smallest_photos(Ok(photos(0, "p")), Ok(photos(5, "u")));
    assert_eq!(ids(&r).len(), 5);
    assert_eq!(ids(&r)[0], "u0");
}

#[test]
fn merge_of_two_empty_lists_is_empty() {
    let r = resolve_smallest_photos(Ok(photos(0, "p")), Ok(photos(0, "u")));
    assert!(r.unwrap().is_empty());
}

#[test]
fn merge_skips_failed_place_search() {
    let r = resolve_smallest_photos(Err("down".to_string()), Ok(photos(3, "u")));
    assert_eq!(ids(&r), vec!["u0", "u1", "u2"]);
}

#[test]
fn merge_skips_failed_unconstrained_search() {
    let r = resolve_smallest_photos(Ok(photos(4, "p")), Err("down".to_string()));
    assert_eq!(ids(&r).len(), 4);
}

#[test]
fn merge_reports_unconstrained_failure_when_both_fail() {
    let r = resolve_smallest_photos(Err("place".to_string()), Err("plain".to_string()));
    assert_eq!(r.err(), Some("plain".to_string()));
}

#[test]
fn merge_takes_shorter_unconstrained_list() {
    let r = resolve_smallest_photos(Ok(photos(6, "p")), Ok(photos(3, "u")));
    assert_eq!(ids(&r)[0], "u0");
}

#[test]
fn merge_tie_goes_to_place_list() {
    let r = resolve_smallest_photos(Ok(photos(3, "p")), Ok(photos(3, "u")));
    assert_eq!(ids(&r)[0], "p0");
}

#[test]
fn merge_with_empty_unconstrained_list_keeps_place_list() {
    let r = resolve_smallest_photos(Ok(photos(2, "p")), Ok(photos(0, "u")));
    assert_eq!(ids(&r), vec!["p0", "p1"]);
}

fn payload(v: Vec<Photo>) -> Result<SearchPhotosPayload, String> {
    Ok(SearchPhotosPayload { photos: Photos { photo: v } })
}

#[test]
fn search_photos_runs_both_searches_and_merges() {
    let seen = RefCell::new(Vec::new());
    let r = search_photos("KEY", "Old Town", Some("pl1".to_string()), |u: String| {
        seen.borrow_mut().push(u.clone());
        if u.contains("&place_id=pl1&") { payload(photos(2, "p")) } else { payload(photos(5, "u")) }
    });
    assert_eq!(ids(&r), vec!["p0", "p1"]);
    let seen = seen.into_inner();
    assert_eq!(seen.len(), 2);
    assert_eq!(
        seen[0],
        "https://api.flickr.com/services/rest/?method=flickr.photos.search&per_page=10&api_key=KEY&text=Old+Town&license=1%2C2%2C3%2C4%2C5%2C6%2C7%2C9%2C10&place_id=pl1&format=json&nojsoncallback=1"
    );
    assert!(seen[1].contains("&place_id=&format=json"));
}

#[test]
fn search_photos_without_place_searches_once() {
    let calls = RefCell::new(0);
    let r = search_photos("KEY", "Lake", None, |_u: String| {
        *calls.borrow_mut() += 1;
        payload(photos(3, "u"))
    });
    assert_eq!(ids(&r).len(), 3);
    assert_eq!(calls.into_inner(), 1);
}

#[test]
fn search_photos_survives_failed_place_search() {
    let r = search_photos("K", "A", Some("p".to_string()), |u: String| {
        if u.contains("&place_id=p&") { Err("boom".to_string()) } else { payload(photos(3, "u")) }
    });
    assert_eq!(ids(&r), vec!["u0", "u1", "u2"]);
}

#[test]
fn search_text_writes_spaces_as_plus() {
    assert_eq!(search_text("Old Town of  Lijiang"), "Old+Town+of++Lijiang");
    assert_eq!(search_text(""), "");
}

#[test]
fn photo_search_request_address() {
    assert!(photo_search_request("k", "t", "").ends_with("&text=t&license=1%2C2%2C3%2C4%2C5%2C6%2C7%2C9%2C10&place_id=&format=json&nojsoncallback=1"));
}

#[test]
fn image_address_from_photo_parts() {
    assert_eq!(image_address(5, "4321", "99", "abc"), "https://farm5.staticflickr.com/4321/99_abc_o.jpg");
    assert_eq!(image_address(0, "s", "i", "x"), "https://farm0.staticflickr.com/s/i_x_o.jpg");
    assert_eq!(image_address(-12, "s", "i", "x"), "https://farm-12.staticflickr.com/s/i_x_o.jpg");
    assert_eq!(image_address(2147483647, "s", "i", "x"), "https://farm2147483647.staticflickr.com/s/i_x_o.jpg");
}

#[test]
fn get_place_takes_first_place() {
    let lat = Coordinate::parse("34.5").unwrap();
    let lon = Coordinate::parse("-1.25").unwrap();
    let seen = RefCell::new(String::new());
    let r = get_place("KEY", &lat, &lon, |u: String| {
        *seen.borrow_mut() = u;
        Ok(FindByLatLonPayload {
            places: Places { place: vec![Place { place_id: "A1".to_string() }, Place { place_id: "B2".to_string() }] },
        })
    });
    assert!(matches!(r, Ok(ref id) if id == "A1"));
    assert_eq!(
        seen.into_inner(),
        "https://api.flickr.com/services/rest/?method=flickr.places.findByLatLon&api_key=KEY&lat=34.5&lon=-1.25&format=json&nojsoncallback=1"
    );
}

#[test]
fn get_place_without_match_is_no_matching_place() {
    let c = Coordinate::parse("0").unwrap();
    let r = get_place("K", &c, &c, |_u: String| Ok(FindByLatLonPayload { places: Places { place: vec![] } }));
    assert!(matches!(r, Err(FindByLatLonError::NoMatchingPlace)));
}

#[test]
fn get_place_request_failure_is_request_error() {
    let c = Coordinate::parse("0").unwrap();
    let r = get_place("K", &c, &c, |_u: String| Err("status 500".to_string()));
    assert!(matches!(r, Err(FindByLatLonError::RequestError(ref m)) if m == "status 500"));
}

#[test]
fn get_licenses_returns_inner_list() {
    let seen = RefCell::new(String::new());
    let r = get_licenses("KEY", |u: String| {
        *seen.borrow_mut() = u;
        Ok(LicensesPayload {
            licenses: Licenses {
                license: vec![
                    License { id: 0, name: "All Rights Reserved".to_string(), url: None },
                    License { id: 4, name: "Attribution".to_string(), url: Some("https://cc/by".to_string()) },
                ],
            },
        })
    });
    let ls = r.ok().unwrap();
    assert_eq!(ls.len(), 2);
    assert_eq!(ls[1].id, 4);
    assert_eq!(
        seen.into_inner(),
        "https://api.flickr.com/services/rest/?method=flickr.photos.licenses.getInfo&api_key=KEY&format=json&nojsoncallback=1"
    );
    assert_eq!(get_licenses("K", |_u: String| Err("bad json".to_string())).err(), Some("bad json".to_string()));
}

#[test]
fn get_photo_info_returns_photo() {
    let seen = RefCell::new(String::new());
    let r = get_photo_info("KEY", "123", |u: String| {
        *seen.borrow_mut() = u;
        Ok(GetInfoPhotoPayload {
            photo: PhotoInfo {
                id: "123".to_string(),
                originalsecret: "os".to_string(),
                license: 4,
                owner: Owner { username: "ann".to_string() },
            },
        })
    });
    let info = r.ok().unwrap();
    assert_eq!(info.owner.username, "ann");
    assert_eq!(
        seen.into_inner(),
        "https://api.flickr.com/services/rest/?method=flickr.photos.getInfo&api_key=KEY&photo_id=123&format=json&nojsoncallback=1"
    );
    assert_eq!(get_photo_info("K", "1", |_u: String| Err("gone".to_string())).err(), Some("gone".to_string()));
}
