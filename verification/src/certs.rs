//! The public key certificates that the European Commission publishes for
//! tachograph signatures: where they are listed, how the download links of
//! the listing page become file names and addresses, and when a failed
//! download is tried again.
//!
//! Fetching the pages and files is I/O and is done by the caller; this module
//! computes everything that is decided on the way.
use crate::text::{trim_text, trimmed};
use vstd::prelude::*;

verus! {

/// The digit `d` (below ten) as a character.
pub open spec fn digit_char(d: nat) -> char {
    (48 + d) as char
}

/// The decimal writing of `n`.
pub open spec fn decimal_chars(n: nat) -> Seq<char>
    decreases n,
{
    if n < 10 {
        seq![digit_char(n)]
    } else {
        decimal_chars(n / 10) + seq![digit_char(n % 10)]
    }
}

/// `s` with every match of `from`, found from left to right without
/// overlapping, replaced by `to`.
pub open spec fn replaced(s: Seq<char>, from: Seq<char>, to: Seq<char>) -> Seq<char>
    decreases s.len(),
{
    if from.len() == 0 || s.len() < from.len() {
        s
    } else if s.subrange(0, from.len() as int) == from {
        to + replaced(s.subrange(from.len() as int, s.len() as int), from, to)
    } else {
        seq![s[0]] + replaced(s.drop_first(), from, to)
    }
}

/// The digit `d` as a one-character string.
fn digit_text(d: usize) -> (r: &'static str)
    requires
        d < 10,
    ensures
        r@ == seq![digit_char(d as nat)],
{
    proof {
        reveal_strlit("0");
        reveal_strlit("1");
        reveal_strlit("2");
        reveal_strlit("3");
        reveal_strlit("4");
        reveal_strlit("5");
        reveal_strlit("6");
        reveal_strlit("7");
        reveal_strlit("8");
        reveal_strlit("9");
    }
    match d {
        0 => "0",
        1 => "1",
        2 => "2",
        3 => "3",
        4 => "4",
        5 => "5",
        6 => "6",
        7 => "7",
        8 => "8",
        _ => "9",
    }
}

/// The number `n` written in decimal.
fn decimal_text(n: usize) -> (r: String)
    ensures
        r@ == decimal_chars(n as nat),
    decreases n,
{
    if n < 10 {
        String::from_str(digit_text(n))
    } else {
        let mut r = decimal_text(n / 10);
        r.append(digit_text(n % 10));
        r
    }
}

/// Whether the characters of `s` from `i` on start with those of `pat`.
fn matches_at(s: &str, i: usize, pat: &str) -> (r: bool)
    requires
        i <= s@.len(),
    ensures
        r == (i + pat@.len() <= s@.len() && s@.subrange(i as int, i + pat@.len()) == pat@),
{
    let n = s.unicode_len();
    let m = pat.unicode_len();
    if m > n - i {
        return false;
    }
    let mut j: usize = 0;
    while j < m
        invariant
            n == s@.len(),
            m == pat@.len(),
            i + m <= n,
            j <= m,
            forall|t: int| 0 <= t < j ==> s@[i + t] == pat@[t],
        decreases m - j,
    {
        if s.get_char(i + j) != pat.get_char(j) {
            assert(s@.subrange(i as int, i + m)[j as int] != pat@[j as int]);
            return false;
        }
        j = j + 1;
    }
    assert(s@.subrange(i as int, i + m) =~= pat@);
    true
}

/// `s` with every match of `from`, found from left to right without
/// overlapping, replaced by `to`, as `str::replace` gives it.
fn replace_text(s: &str, from: &str, to: &str) -> (r: String)
    requires
        from@.len() > 0,
    ensures
        r@ == replaced(s@, from@, to@),
{
    let n = s.unicode_len();
    let m = from.unicode_len();
    let mut out = String::new();
    let mut i: usize = 0;
    assert(s@.subrange(0, n as int) =~= s@);
    while i < n
        invariant
            n == s@.len(),
            m == from@.len(),
            m > 0,
            i <= n,
            replaced(s@, from@, to@) == out@ + replaced(s@.subrange(i as int, n as int), from@, to@),
        decreases n - i,
    {
        let ghost rest = s@.subrange(i as int, n as int);
        if matches_at(s, i, from) {
            assert(rest.subrange(0, m as int) =~= s@.subrange(i as int, i + m));
            assert(rest.subrange(m as int, rest.len() as int) =~= s@.subrange(i + m, n as int));
            let ghost before = out@;
            out.append(to);
            assert(out@ + replaced(s@.subrange(i + m, n as int), from@, to@) =~= before + (to@
                + replaced(s@.subrange(i + m, n as int), from@, to@)));
            i = i + m;
        } else {
            proof {
                if rest.len() >= m {
                    assert(rest.subrange(0, m as int) =~= s@.subrange(i as int, i + m));
                }
                assert(rest.drop_first() =~= s@.subrange(i + 1, n as int));
            }
            let ghost before = out@;
            out.append(s.substring_char(i, i + 1));
            assert(s@.subrange(i as int, i + 1) =~= seq![rest[0]]);
            assert(out@ + replaced(s@.subrange(i + 1, n as int), from@, to@) =~= before + (seq![rest[0]]
                + replaced(s@.subrange(i + 1, n as int), from@, to@)));
            i = i + 1;
        }
    }
    assert(s@.subrange(n as int, n as int) =~= Seq::<char>::empty());
    assert(out@ + Seq::<char>::empty() =~= out@);
    out
}

/// How many of the names before position `upto` equal the name at `i`.
pub open spec fn equal_before(s: Seq<Seq<char>>, i: int, upto: int) -> nat
    decreases upto,
{
    if upto <= 0 {
        0
    } else {
        equal_before(s, i, upto - 1) + if s[upto - 1] == s[i] {
            1nat
        } else {
            0nat
        }
    }
}

/// The name that a file named `n` takes as the `c`-th of that name: its
/// `.bin` taken out, then `_`, the number and `.bin` added.
pub open spec fn numbered_name(n: Seq<char>, c: nat) -> Seq<char> {
    replaced(n, ".bin"@, ""@) + "_"@ + decimal_chars(c) + ".bin"@
}

/// The name at position `i` once repeated names are numbered: the `c`-th
/// copy of a name, for `c` from 2 on, takes the number `c`; the first copy
/// keeps its name.
pub open spec fn renumbered_at(s: Seq<Seq<char>>, i: int) -> Seq<char> {
    let c = 1 + equal_before(s, i, i);
    if c > 1 {
        numbered_name(s[i], c)
    } else {
        s[i]
    }
}

/// The names with every repeated one numbered.
pub open spec fn renumbered(s: Seq<Seq<char>>) -> Seq<Seq<char>> {
    Seq::new(s.len(), |i: int| renumbered_at(s, i))
}

/// No name before position `upto`, up to `i`, equals the name at `i` when no
/// two names are equal.
proof fn lemma_equal_before_distinct(s: Seq<Seq<char>>, i: int, upto: int)
    requires
        forall|a: int, b: int| 0 <= a < b < s.len() ==> s[a] != s[b],
        0 <= upto <= i < s.len(),
    ensures
        equal_before(s, i, upto) == 0,
    decreases upto,
{
    if upto > 0 {
        lemma_equal_before_distinct(s, i, upto - 1);
    }
}

/// Numbering keeps names of which no two are equal as they are.
pub proof fn lemma_distinct_names_kept(s: Seq<Seq<char>>)
    requires
        forall|a: int, b: int| 0 <= a < b < s.len() ==> s[a] != s[b],
    ensures
        renumbered(s) == s,
{
    assert forall|i: int| 0 <= i < s.len() implies #[trigger] renumbered(s)[i] == s[i] by {
        lemma_equal_before_distinct(s, i, i);
    }
    assert(renumbered(s) =~= s);
}

/// Numbering keeps the first name as it is.
pub proof fn lemma_first_name_kept(s: Seq<Seq<char>>)
    requires
        s.len() > 0,
    ensures
        renumbered(s)[0] == s[0],
{
}

/// The number of names before position `k` that equal the name at `i`,
/// counted by filtering.
proof fn lemma_equal_before_counts(s: Seq<Seq<char>>, i: int, k: int)
    requires
        0 <= k <= i < s.len(),
    ensures
        equal_before(s, i, k) == s.take(k).filter(|x: Seq<char>| x == s[i]).len(),
    decreases k,
{
    reveal(Seq::filter);
    if k > 0 {
        lemma_equal_before_counts(s, i, k - 1);
        assert(s.take(k).drop_last() =~= s.take(k - 1));
        assert(s.take(k).last() == s[k - 1]);
    } else {
        assert(s.take(0) =~= Seq::<Seq<char>>::empty());
    }
}

/// Each name of a listing becomes: itself when no earlier name equals it;
/// else, when it is the `c`-th copy of its name, the name with every
/// `.bin` taken out, then `_`, the decimal digits of `c`, and `.bin`.
pub proof fn law_repeated_names_numbered(s: Seq<Seq<char>>, i: int)
    requires
        0 <= i < s.len(),
    ensures
        ({
            let c = s.take(i).filter(|x: Seq<char>| x == s[i]).len() + 1;
            &&& c == 1 ==> renumbered(s)[i] == s[i]
            &&& c > 1 ==> renumbered(s)[i] == replaced(s[i], ".bin"@, ""@) + "_"@ + decimal_chars(c)
                + ".bin"@
        }),
{
    lemma_equal_before_counts(s, i, i);
}

/// Gives each name that an earlier one repeats a number: the second copy of
/// a name is numbered 2, the third 3, and so on, as the listing of
/// certificates needs for the same certificate with other validity dates.
pub fn number_repeated_names(names: Vec<String>) -> (r: Vec<String>)
    ensures
        r.deep_view() == renumbered(names.deep_view()),
{
    let ghost orig = names.deep_view();
    let n = names.len();
    let mut out: Vec<String> = Vec::new();
    let mut i: usize = 0;
    while i < n
        invariant
            n == names.len(),
            orig == names.deep_view(),
            i <= n,
            out.len() == i,
            forall|k: int| 0 <= k < i ==> (#[trigger] out@[k])@ == renumbered_at(orig, k),
        decreases n - i,
    {
        let mut count: usize = 1;
        let mut j: usize = 0;
        while j < i
            invariant
                i < n,
                n == names.len(),
                orig == names.deep_view(),
                j <= i,
                count == 1 + equal_before(orig, i as int, j as int),
                count <= j + 1,
            decreases i - j,
        {
            if names[j] == names[i] {
                count = count + 1;
            }
            j = j + 1;
        }
        if count > 1 {
            proof {
                reveal_strlit(".bin");
            }
            let base = replace_text(names[i].as_str(), ".bin", "");
            let digits = decimal_text(count);
            let mut numbered = base;
            numbered.append("_");
            numbered.append(digits.as_str());
            numbered.append(".bin");
            out.push(numbered);
        } else {
            out.push(names[i].clone());
        }
        i = i + 1;
    }
    assert(out.deep_view() =~= renumbered(orig));
    out
}

/// A certificate to fetch: the file it is saved as and its address.
#[derive(Debug)]
pub struct Cert {
    pub name: String,
    pub url: String,
}

/// Where the certificates of one generation are listed and fetched, and the
/// directory they are saved in.
#[derive(Debug)]
pub struct CertConfig {
    pub base_url: &'static str,
    pub certs_url: &'static str,
    pub root_cert_url: &'static str,
    pub output_dir: &'static str,
}

/// The certificates of generation 1.
pub fn gen1_cert_config() -> (c: CertConfig)
    ensures
        c.base_url@ == "https://dtc.jrc.ec.europa.eu"@,
        c.certs_url@ == "/dtc_public_key_certificates_dt.php.html"@,
        c.root_cert_url@ == "/erca_of_doc/EC_PK.zip"@,
        c.output_dir@ == "certs/pks1"@,
{
    CertConfig {
        base_url: "https://dtc.jrc.ec.europa.eu",
        certs_url: "/dtc_public_key_certificates_dt.php.html",
        root_cert_url: "/erca_of_doc/EC_PK.zip",
        output_dir: "certs/pks1",
    }
}

/// The certificates of generation 2.
pub fn gen2_cert_config() -> (c: CertConfig)
    ensures
        c.base_url@ == "https://dtc.jrc.ec.europa.eu"@,
        c.certs_url@ == "/dtc_public_key_certificates_st.php.html"@,
        c.root_cert_url@ == "/ERCA_Gen2_Root_Certificate.zip"@,
        c.output_dir@ == "certs/pks2"@,
{
    CertConfig {
        base_url: "https://dtc.jrc.ec.europa.eu",
        certs_url: "/dtc_public_key_certificates_st.php.html",
        root_cert_url: "/ERCA_Gen2_Root_Certificate.zip",
        output_dir: "certs/pks2",
    }
}

/// The address of the page that lists the certificates.
pub fn cert_list_url(config: &CertConfig) -> (r: String)
    ensures
        r@ == config.base_url@ + config.certs_url@,
{
    let mut r = String::from_str(config.base_url);
    r.append(config.certs_url);
    r
}

/// The address of the archive of the root certificate.
pub fn root_cert_address(config: &CertConfig) -> (r: String)
    ensures
        r@ == config.base_url@ + config.root_cert_url@,
{
    let mut r = String::from_str(config.base_url);
    r.append(config.root_cert_url);
    r
}

/// The directory that the root certificate is unpacked into.
pub fn root_cert_dir(config: &CertConfig) -> (r: String)
    ensures
        r@ == config.output_dir@ + "/root"@,
{
    let mut r = String::from_str(config.output_dir);
    r.append("/root");
    r
}

/// The file that the certificate `cert` is saved as in `output_dir`.
pub fn cert_file_path(output_dir: &str, cert: &Cert) -> (r: String)
    ensures
        r@ == output_dir@ + "/"@ + cert.name@,
{
    let mut r = String::from_str(output_dir);
    r.append("/");
    r.append(cert.name.as_str());
    r
}

/// The CSS selector of the download links of the listing page.
pub open spec fn cert_link_selector() -> Seq<char> {
    "a[title='Download certificate file']"@
}

/// For each element that the CSS selector `selector` picks out of the HTML
/// document `body`, in document order, its text and the value of its
/// attribute `attr`, if it has one; `None` where the selector does not parse.
pub uninterp spec fn selected_links(body: Seq<char>, selector: Seq<char>, attr: Seq<char>) -> Option<Seq<(Seq<char>, Option<Seq<char>>)>>;

/// `scraper`: `Selector::parse` reads the CSS selector, `Html::parse_document`
/// the HTML document, and `Html::select` picks the elements in document
/// order; of each, `ElementRef::text` gives the text nodes below it, joined,
/// and `Element::attr` the attribute `attr`. `None` where the selector does
/// not parse. What the HTML and CSS parsers give is left to the crate and
/// named `selected_links`, a function of the three texts.
#[verifier::external_body]
fn select_links(body: &str, selector: &str, attr: &str) -> (r: Option<Vec<(String, Option<String>)>>)
    ensures
        r.deep_view() == selected_links(body@, selector@, attr@),
{
    let selector = match scraper::Selector::parse(selector) {
        Ok(s) => s,
        Err(_) => return None,
    };
    let html = scraper::Html::parse_document(body);
    let mut out = Vec::new();
    for link in html.select(&selector) {
        out.push((link.text().collect::<String>(), link.value().attr(attr).map(|v| v.to_string())));
    }
    Some(out)
}

/// The file name of a certificate whose link reads `text`.
pub open spec fn cert_name_of(text: Seq<char>) -> Seq<char> {
    trimmed(text) + ".bin"@
}

/// Every link has an address.
pub open spec fn cert_links_complete(ls: Seq<(Seq<char>, Option<Seq<char>>)>) -> bool {
    forall|i: int| 0 <= i < ls.len() ==> (#[trigger] ls[i]).1 is Some
}

/// The names of the certificates `cs`.
pub open spec fn cert_names(cs: Seq<Cert>) -> Seq<Seq<char>> {
    Seq::new(cs.len(), |i: int| cs[i].name@)
}

/// `cs` are the certificates of the links `ls` of a page under `base`: one
/// for each link, in order, at the link's address under `base`, named by the
/// link's text, and numbered where an earlier name repeats it.
pub open spec fn certs_of_links(base: Seq<char>, ls: Seq<(Seq<char>, Option<Seq<char>>)>, cs: Seq<Cert>) -> bool {
    &&& cs.len() == ls.len()
    &&& forall|i: int| 0 <= i < cs.len() ==> (#[trigger] cs[i]).url@ == base + "/"@ + ls[i].1->0
    &&& cert_names(cs) == renumbered(Seq::new(ls.len(), |i: int| cert_name_of(ls[i].0)))
}

/// The certificates of the download links `links` (text and address) of the
/// listing page under `base_url`; `None` where a link has no address.
pub fn certs_from_links(base_url: &str, links: &Vec<(String, Option<String>)>) -> (r: Option<Vec<Cert>>)
    ensures
        r is Some <==> cert_links_complete(links.deep_view()),
        r matches Some(cs) ==> certs_of_links(base_url@, links.deep_view(), cs@),
{
    let ghost ls = links.deep_view();
    let n = links.len();
    let mut names: Vec<String> = Vec::new();
    let mut urls: Vec<String> = Vec::new();
    let mut i: usize = 0;
    while i < n
        invariant
            n == links.len(),
            ls == links.deep_view(),
            i <= n,
            names.len() == i,
            urls.len() == i,
            forall|k: int| 0 <= k < i ==> (#[trigger] ls[k]).1 is Some,
            forall|k: int| 0 <= k < i ==> (#[trigger] names@[k])@ == cert_name_of(ls[k].0),
            forall|k: int| 0 <= k < i ==> (#[trigger] urls@[k])@ == base_url@ + "/"@ + ls[k].1->0,
        decreases n - i,
    {
        let link = &links[i];
        assert(ls[i as int] == (link.0@, link.1.deep_view()));
        match &link.1 {
            None => {
                return None;
            },
            Some(href) => {
                let mut name = trim_text(link.0.as_str());
                name.append(".bin");
                names.push(name);
                let mut url = String::from_str(base_url);
                url.append("/");
                url.append(href.as_str());
                urls.push(url);
            },
        }
        i = i + 1;
    }
    let ghost plain = names.deep_view();
    assert(plain =~= Seq::new(ls.len(), |k: int| cert_name_of(ls[k].0)));
    let numbered = number_repeated_names(names);
    proof {
        assert(numbered.deep_view().len() == numbered.len());
    }
    let mut certs: Vec<Cert> = Vec::new();
    let mut k: usize = 0;
    while k < n
        invariant
            n == links.len(),
            n == urls.len(),
            n == numbered.len(),
            k <= n,
            certs.len() == k,
            numbered.deep_view() == renumbered(plain),
            forall|j: int| 0 <= j < n ==> (#[trigger] urls@[j])@ == base_url@ + "/"@ + ls[j].1->0,
            forall|j: int| 0 <= j < k ==> (#[trigger] certs@[j]).url@ == urls@[j]@,
            forall|j: int| 0 <= j < k ==> (#[trigger] certs@[j]).name@ == numbered@[j]@,
        decreases n - k,
    {
        let name = numbered[k].clone();
        let url = urls[k].clone();
        certs.push(Cert { name, url });
        k = k + 1;
    }
    proof {
        assert(cert_names(certs@) =~= numbered.deep_view());
    }
    Some(certs)
}

/// The certificates that the listing page `body` under `base_url` links to;
/// `None` where a download link has no address.
pub fn certs_from_page(base_url: &str, body: &str) -> (r: Option<Vec<Cert>>)
    ensures
        match selected_links(body@, cert_link_selector(), "href"@) {
            None => r is None,
            Some(ls) => (r is Some <==> cert_links_complete(ls)) && (r matches Some(cs)
                ==> certs_of_links(base_url@, ls, cs@)),
        },
{
    match select_links(body, "a[title='Download certificate file']", "href") {
        None => None,
        Some(links) => certs_from_links(base_url, &links),
    }
}

/// The number of times a certificate is fetched before its download fails.
pub const MAX_DOWNLOAD_ATTEMPTS: u32 = 3;

/// What to do after an attempt at fetching a certificate's bytes.
#[derive(Debug, Clone, Copy, PartialEq, Eq)]
pub enum DownloadStep {
    /// The bytes came: save them.
    Save,
    /// They did not: try again, as attempt `attempt`.
    Retry { attempt: u32 },
    /// They did not, and no attempt is left: fail with the last error.
    GiveUp,
}

/// The step after attempt `attempt` (counted from 1), whose bytes came when `received`.
pub fn after_download_attempt(attempt: u32, received: bool) -> (s: DownloadStep)
    requires
        1 <= attempt <= MAX_DOWNLOAD_ATTEMPTS,
    ensures
        received ==> s == DownloadStep::Save,
        !received && attempt < MAX_DOWNLOAD_ATTEMPTS ==> s == (DownloadStep::Retry { attempt: (attempt + 1) as u32 }),
        !received && attempt == MAX_DOWNLOAD_ATTEMPTS ==> s == DownloadStep::GiveUp,
{
    if received {
        DownloadStep::Save
    } else if attempt < MAX_DOWNLOAD_ATTEMPTS {
        DownloadStep::Retry { attempt: attempt + 1 }
    } else {
        DownloadStep::GiveUp
    }
}

} // verus!
