use vstd::prelude::*;

verus! {

/// The text of the reverse-geocoding request URL for the given API key and
/// coordinate texts: the fixed base, then the coordinates separated by an
/// encoded comma, then the key, then the fixed trailing query parameters.
pub open spec fn reverse_url_spec(api: Seq<char>, lat: Seq<char>, lng: Seq<char>) -> Seq<char> {
    "https://api.what3words.com/v2"@ + "/reverse?coords="@ + lat + "%2C"@ + lng + "&key="@ + api
        + "&lang=en&format=json&display=full"@
}

/// Builds the request URL from the API key and the decimal texts of the
/// latitude and longitude. The coordinate texts and the key are interpolated
/// verbatim; this never fails.
pub fn reverse_url(api: &str, lat: &str, lng: &str) -> (url: String)
    ensures
        url@ == reverse_url_spec(api@, lat@, lng@),
{
    let mut url = String::new();
    url.append("https://api.what3words.com/v2");
    url.append("/reverse?coords=");
    url.append(lat);
    url.append("%2C");
    url.append(lng);
    url.append("&key=");
    url.append(api);
    url.append("&lang=en&format=json&display=full");
    proof {
        assert(url@ =~= reverse_url_spec(api@, lat@, lng@));
    }
    url
}

/// Law: whatever the key and the coordinate texts, the URL begins with the
/// fixed base path and query prefix, carries `<lat>%2C<lng>` verbatim right
/// after it, then `&key=<api>`, and ends with the fixed trailing parameters.
pub proof fn lemma_url_shape(api: Seq<char>, lat: Seq<char>, lng: Seq<char>)
    ensures
        ({
            let url = reverse_url_spec(api, lat, lng);
            let prefix = "https://api.what3words.com/v2"@ + "/reverse?coords="@;
            let coords = lat + "%2C"@ + lng;
            let suffix = "&lang=en&format=json&display=full"@;
            &&& url.len() == prefix.len() + coords.len() + "&key="@.len() + api.len()
                + suffix.len()
            &&& url.take(prefix.len() as int) == prefix
            &&& url.subrange(prefix.len() as int, (prefix.len() + coords.len()) as int) == coords
            &&& url.subrange(
                (prefix.len() + coords.len()) as int,
                (prefix.len() + coords.len() + "&key="@.len() + api.len()) as int,
            ) == "&key="@ + api
            &&& url.skip((url.len() - suffix.len()) as int) == suffix
        }),
{
    let url = reverse_url_spec(api, lat, lng);
    let prefix = "https://api.what3words.com/v2"@ + "/reverse?coords="@;
    let coords = lat + "%2C"@ + lng;
    let suffix = "&lang=en&format=json&display=full"@;
    assert(url =~= prefix + coords + "&key="@ + api + suffix);
    assert(url.take(prefix.len() as int) =~= prefix);
    assert(url.subrange(prefix.len() as int, (prefix.len() + coords.len()) as int) =~= coords);
    assert(url.subrange(
        (prefix.len() + coords.len()) as int,
        (prefix.len() + coords.len() + "&key="@.len() + api.len()) as int,
    ) =~= "&key="@ + api);
    assert(url.skip((url.len() - suffix.len()) as int) =~= suffix);
}

} // verus!
