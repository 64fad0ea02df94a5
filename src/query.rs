//! Ways to name a location, and the request URL built from one.
use vstd::prelude::*;

verus! {

/// Host of the provider's current-weather endpoint.
pub const API_HOST: &'static str = "api.openweathermap.org";

/// One way to identify a location.
pub enum Query<'a> {
    City(&'a str),
    Zip(&'a str),
    Id(&'a str),
}

/// The command line's choice of location, owning its text.
pub enum Args {
    City { city: String },
    Zip { zip: String },
    Id { id: String },
}

/// Name of the URL parameter that a query variant sets.
pub open spec fn param_name(q: Query) -> Seq<char> {
    match q {
        Query::City(_) => "q"@,
        Query::Zip(_) => "zip"@,
        Query::Id(_) => "id"@,
    }
}

/// The location text that a query carries.
pub open spec fn param_value(q: Query) -> Seq<char> {
    match q {
        Query::City(s) => s@,
        Query::Zip(s) => s@,
        Query::Id(s) => s@,
    }
}

/// `<name>=<value>` for a query.
pub open spec fn param_text(q: Query) -> Seq<char> {
    param_name(q) + "="@ + param_value(q)
}

/// The query string of a request: the key first, then the location parameter.
pub open spec fn query_string(key: Seq<char>, q: Query) -> Seq<char> {
    "APPID="@ + key + "&"@ + param_text(q)
}

/// The full request URL.
pub open spec fn url_text(host: Seq<char>, key: Seq<char>, q: Query) -> Seq<char> {
    "http://"@ + host + "/data/2.5/weather?"@ + query_string(key, q)
}

impl Args {
    /// The query that these arguments describe, borrowing their text.
    pub fn query(&self) -> (r: Query<'_>)
        ensures
            match (self, r) {
                (Args::City { city }, Query::City(s)) => s@ == city@,
                (Args::Zip { zip }, Query::Zip(s)) => s@ == zip@,
                (Args::Id { id }, Query::Id(s)) => s@ == id@,
                _ => false,
            },
    {
        match self {
            Args::City { city } => Query::City(city.as_str()),
            Args::Zip { zip } => Query::Zip(zip.as_str()),
            Args::Id { id } => Query::Id(id.as_str()),
        }
    }
}

impl<'a> Query<'a> {
    /// The URL parameter for this query, as `<name>=<value>`.
    pub fn param(&self) -> (r: String)
        ensures
            r@ == param_text(*self),
    {
        match self {
            Query::City(s) => {
                let mut r = String::from_str("q=");
                r.append(s);
                proof {
                    reveal_strlit("q");
                    reveal_strlit("=");
                    reveal_strlit("q=");
                    assert(r@ =~= param_text(*self));
                }
                r
            },
            Query::Zip(s) => {
                let mut r = String::from_str("zip=");
                r.append(s);
                proof {
                    reveal_strlit("zip");
                    reveal_strlit("=");
                    reveal_strlit("zip=");
                    assert(r@ =~= param_text(*self));
                }
                r
            },
            Query::Id(s) => {
                let mut r = String::from_str("id=");
                r.append(s);
                proof {
                    reveal_strlit("id");
                    reveal_strlit("=");
                    reveal_strlit("id=");
                    assert(r@ =~= param_text(*self));
                }
                r
            },
        }
    }
}

/// Builds `http://<host>/data/2.5/weather?APPID=<key>&<name>=<value>`.
/// The location text is inserted as it is, without percent-encoding.
pub fn build_url(host: &str, api_key: &str, query: &Query) -> (r: String)
    ensures
        r@ == url_text(host@, api_key@, *query),
{
    let mut r = String::from_str("http://");
    r.append(host);
    r.append("/data/2.5/weather?APPID=");
    r.append(api_key);
    r.append("&");
    let p = query.param();
    r.append(p.as_str());
    proof {
        reveal_strlit("q");
        reveal_strlit("zip");
        reveal_strlit("id");
        reveal_strlit("=");
        reveal_strlit("q=");
        reveal_strlit("zip=");
        reveal_strlit("id=");
        reveal_strlit("APPID=");
        reveal_strlit("/data/2.5/weather?");
        reveal_strlit("/data/2.5/weather?APPID=");
        assert(r@ =~= url_text(host@, api_key@, *query));
    }
    r
}

/// How many times `c` occurs in `s`.
pub open spec fn count_char(s: Seq<char>, c: char) -> nat
    decreases s.len(),
{
    if s.len() == 0 {
        0
    } else {
        count_char(s.drop_last(), c) + if s.last() == c {
            1nat
        } else {
            0nat
        }
    }
}

proof fn lemma_count_concat(a: Seq<char>, b: Seq<char>, c: char)
    ensures
        count_char(a + b, c) == count_char(a, c) + count_char(b, c),
    decreases b.len(),
{
    if b.len() > 0 {
        assert((a + b).drop_last() =~= a + b.drop_last());
        lemma_count_concat(a, b.drop_last(), c);
    } else {
        assert(a + b =~= a);
    }
}

proof fn lemma_count_absent(s: Seq<char>, c: char)
    requires
        forall|i: int| 0 <= i < s.len() ==> s[i] != c,
    ensures
        count_char(s, c) == 0,
    decreases s.len(),
{
    if s.len() > 0 {
        lemma_count_absent(s.drop_last(), c);
    }
}

/// A request URL names the endpoint, then the key, then exactly one location
/// parameter: `q`, `zip` or `id` as the variant says, with the location text
/// as it is. Where neither the key nor the location text holds `&`, the query
/// string holds exactly one `&`, so it carries no other parameter.
pub proof fn lemma_url_params(host: Seq<char>, key: Seq<char>, q: Query)
    ensures
        url_text(host, key, q) == "http://"@ + host + "/data/2.5/weather?"@ + "APPID="@ + key + "&"@
            + param_name(q) + "="@ + param_value(q),
        q is City ==> param_name(q) == "q"@,
        q is Zip ==> param_name(q) == "zip"@,
        q is Id ==> param_name(q) == "id"@,
        count_char(key, '&') == 0 && count_char(param_value(q), '&') == 0 ==> count_char(
            query_string(key, q),
            '&',
        ) == 1,
{
    reveal_strlit("APPID=");
    reveal_strlit("&");
    reveal_strlit("=");
    reveal_strlit("q");
    reveal_strlit("zip");
    reveal_strlit("id");
    assert(url_text(host, key, q) =~= "http://"@ + host + "/data/2.5/weather?"@ + "APPID="@ + key
        + "&"@ + param_name(q) + "="@ + param_value(q));
    let v = param_value(q);
    let n = param_name(q);
    lemma_count_absent("APPID="@, '&');
    lemma_count_absent("="@, '&');
    lemma_count_absent(n, '&');
    assert(count_char("&"@, '&') == 1) by {
        assert("&"@.drop_last() =~= Seq::<char>::empty());
        assert("&"@.last() == '&');
        assert(count_char(Seq::<char>::empty(), '&') == 0);
    }
    lemma_count_concat("APPID="@, key, '&');
    lemma_count_concat("APPID="@ + key, "&"@, '&');
    lemma_count_concat("APPID="@ + key + "&"@, n, '&');
    lemma_count_concat("APPID="@ + key + "&"@ + n, "="@, '&');
    lemma_count_concat("APPID="@ + key + "&"@ + n + "="@, v, '&');
    assert(query_string(key, q) =~= "APPID="@ + key + "&"@ + n + "="@ + v);
}

} // verus!
