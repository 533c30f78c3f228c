use vstd::prelude::*;
use vstd::string::*;

use crate::codec::{
    base64_standard, random_bytes, render_template, spec_base64_standard, spec_render,
    spec_url_join, url_join,
};
use crate::text::{chars_eq, chars_of, str_eq, string_of};

verus! {

/// The text after the last `sep` in `s`, or all of `s` when it holds no
/// `sep`: the last piece that `str::split` gives.
pub open spec fn after_last(s: Seq<char>, sep: char) -> Seq<char>
    decreases s.len(),
{
    if s.len() == 0 {
        s
    } else if s.last() == sep {
        Seq::empty()
    } else {
        after_last(s.drop_last(), sep).push(s.last())
    }
}

/// The content type served for a file extension.
pub open spec fn spec_mime(ext: Seq<char>) -> Seq<char> {
    if ext == "html"@ {
        "text/html"@
    } else if ext == "css"@ {
        "text/css"@
    } else if ext == "js"@ {
        "application/javascript"@
    } else if ext == "wasm"@ {
        "application/wasm"@
    } else if ext == "svg"@ {
        "image/svg+xml"@
    } else if ext == "png"@ {
        "image/png"@
    } else if ext == "jpg"@ {
        "image/jpeg"@
    } else if ext == "ico"@ {
        "image/x-icon"@
    } else {
        "application/octet-stream"@
    }
}

/// The text after the last `sep`.
pub fn after_last_chars(s: &Vec<char>, sep: char) -> (res: Vec<char>)
    ensures
        res@ == after_last(s@, sep),
{
    let mut start: usize = 0;
    let mut i: usize = 0;
    while i < s.len()
        invariant
            i <= s.len(),
            start <= i,
            s@.subrange(start as int, i as int) == after_last(s@.take(i as int), sep),
        decreases s.len() - i,
    {
        proof {
            assert(s@.take(i + 1).drop_last() =~= s@.take(i as int));
            assert(s@.take(i + 1).last() == s@[i as int]);
        }
        if s[i] == sep {
            start = i + 1;
            proof {
                assert(s@.subrange(start as int, i + 1) =~= Seq::<char>::empty());
            }
        } else {
            proof {
                assert(s@.subrange(start as int, i + 1) =~= s@.subrange(start as int, i as int).push(
                    s@[i as int],
                ));
            }
        }
        i = i + 1;
    }
    proof {
        assert(s@.take(s@.len() as int) =~= s@);
    }
    let mut res: Vec<char> = Vec::new();
    let mut k: usize = start;
    while k < s.len()
        invariant
            start <= k <= s.len(),
            res@ == s@.subrange(start as int, k as int),
        decreases s.len() - k,
    {
        res.push(s[k]);
        proof {
            assert(s@.subrange(start as int, k + 1) =~= s@.subrange(start as int, k as int).push(
                s@[k as int],
            ));
        }
        k = k + 1;
    }
    res
}

fn ext_is(ext: &Vec<char>, lit: &str) -> (res: bool)
    ensures
        res == (ext@ == lit@),
{
    let l = chars_of(lit);
    chars_eq(ext, &l)
}

/// The content type of a file served from the web client's assets, chosen
/// by the text after the path's last dot.
pub fn mime_from_ext(path: &str) -> (res: &'static str)
    ensures
        res@ == spec_mime(after_last(path@, '.')),
{
    let p = chars_of(path);
    let ext = after_last_chars(&p, '.');
    if ext_is(&ext, "html") {
        "text/html"
    } else if ext_is(&ext, "css") {
        "text/css"
    } else if ext_is(&ext, "js") {
        "application/javascript"
    } else if ext_is(&ext, "wasm") {
        "application/wasm"
    } else if ext_is(&ext, "svg") {
        "image/svg+xml"
    } else if ext_is(&ext, "png") {
        "image/png"
    } else if ext_is(&ext, "jpg") {
        "image/jpeg"
    } else if ext_is(&ext, "ico") {
        "image/x-icon"
    } else {
        "application/octet-stream"
    }
}

/// `s` without the run of `c` it starts with.
pub open spec fn drop_leading(s: Seq<char>, c: char) -> Seq<char>
    decreases s.len(),
{
    if s.len() > 0 && s[0] == c {
        drop_leading(s.drop_first(), c)
    } else {
        s
    }
}

proof fn lemma_drop_leading_skip(s: Seq<char>, c: char, i: int)
    requires
        0 <= i <= s.len(),
        forall|j: int| 0 <= j < i ==> s[j] == c,
    ensures
        drop_leading(s, c) == drop_leading(s.skip(i), c),
    decreases i,
{
    if i > 0 {
        assert(s.skip(1).skip(i - 1) =~= s.skip(i));
        lemma_drop_leading_skip(s.drop_first(), c, i - 1);
    } else {
        assert(s.skip(0) =~= s);
    }
}

/// The asset a request path asks for: the path without its leading
/// slashes, or `index.html` when nothing is left.
pub fn asset_path(uri_path: &str) -> (res: String)
    ensures
        drop_leading(uri_path@, '/').len() == 0 ==> res@ == "index.html"@,
        drop_leading(uri_path@, '/').len() > 0 ==> res@ == drop_leading(uri_path@, '/'),
{
    let p = chars_of(uri_path);
    let mut i: usize = 0;
    while i < p.len() && p[i] == '/'
        invariant
            i <= p.len(),
            p@ == uri_path@,
            forall|j: int| 0 <= j < i ==> p@[j] == '/',
        decreases p.len() - i,
    {
        i = i + 1;
    }
    let mut rest: Vec<char> = Vec::new();
    let mut k: usize = i;
    while k < p.len()
        invariant
            i <= k <= p.len(),
            rest@ == p@.subrange(i as int, k as int),
        decreases p.len() - k,
    {
        rest.push(p[k]);
        proof {
            assert(p@.subrange(i as int, k + 1) =~= p@.subrange(i as int, k as int).push(
                p@[k as int],
            ));
        }
        k = k + 1;
    }
    proof {
        lemma_drop_leading_skip(p@, '/', i as int);
        assert(rest@ =~= p@.skip(i as int));
        if i < p@.len() {
            assert(p@.skip(i as int)[0] != '/');
        }
    }
    if rest.len() == 0 {
        String::from_str("index.html")
    } else {
        string_of(&rest)
    }
}

/// Whether a requested asset is served as it is: every asset but the
/// index page, which is rendered.
pub fn serves_raw(path: &str) -> (res: bool)
    ensures
        res == (path@ != "index.html"@),
{
    !str_eq(path, "index.html")
}

/// Where an invite leads, for the title of its page.
pub enum InviteTitleTarget {
    Room(String),
    Gdm(String),
    Server,
    User(String),
}

/// The title of an invite's page.
pub fn invite_title(t: &InviteTitleTarget) -> (res: String)
    ensures
        t matches InviteTitleTarget::Room(n) ==> res@ == "you have been invited to "@ + n@,
        t matches InviteTitleTarget::Gdm(n) ==> res@ == "you have been invited to "@ + n@,
        t is Server ==> res@ == "you have been invited to a server"@,
        t matches InviteTitleTarget::User(n) ==> res@ == n@ + " sent a friend request"@,
{
    match t {
        InviteTitleTarget::Room(n) => {
            let mut r = String::from_str("you have been invited to ");
            r.append(n.as_str());
            r
        },
        InviteTitleTarget::Gdm(n) => {
            let mut r = String::from_str("you have been invited to ");
            r.append(n.as_str());
            r
        },
        InviteTitleTarget::Server => String::from_str("you have been invited to a server"),
        InviteTitleTarget::User(n) => {
            let mut r = String::from_str(n.as_str());
            r.append(" sent a friend request");
            r
        },
    }
}

/// The Open Graph and Twitter meta tags of an invite's page, with its title
/// written into both title tags as it is.
pub open spec fn spec_og_tags(title: Seq<char>) -> Seq<char> {
    "<meta property=\"og:title\" content=\""@ + title
        + "\">\n<meta property=\"og:type\" content=\"website\">\n<meta property=\"og:site_name\" content=\"lamprey mountain\">\n<meta name=\"twitter:card\" content=\"summary\">\n<meta name=\"twitter:title\" content=\""@
        + title + "\">\n<meta name=\"theme-color\" content=\"#b18cf3\">"@
}

/// The meta tags of an invite's page.
pub fn og_tags(title: &str) -> (res: String)
    ensures
        res@ == spec_og_tags(title@),
{
    let mut r = String::from_str("<meta property=\"og:title\" content=\"");
    r.append(title);
    r.append(
        "\">\n<meta property=\"og:type\" content=\"website\">\n<meta property=\"og:site_name\" content=\"lamprey mountain\">\n<meta name=\"twitter:card\" content=\"summary\">\n<meta name=\"twitter:title\" content=\"",
    );
    r.append(title);
    r.append("\">\n<meta name=\"theme-color\" content=\"#b18cf3\">");
    r
}

/// Whether `pat` occurs in `s` at index `i`.
pub open spec fn occurs_at(s: Seq<char>, pat: Seq<char>, i: int) -> bool {
    0 <= i && i + pat.len() <= s.len() && s.subrange(i, i + pat.len()) == pat
}

fn matches_at(s: &Vec<char>, pat: &Vec<char>, i: usize) -> (res: bool)
    ensures
        res == occurs_at(s@, pat@, i as int),
{
    if i > s.len() || pat.len() > s.len() - i {
        return false;
    }
    let mut k: usize = 0;
    while k < pat.len()
        invariant
            k <= pat.len(),
            i + pat.len() <= s.len(),
            forall|j: int| 0 <= j < k ==> s@[i + j] == pat@[j],
        decreases pat.len() - k,
    {
        if s[i + k] != pat[k] {
            proof {
                assert(s@.subrange(i as int, i + pat.len())[k as int] != pat@[k as int]);
            }
            return false;
        }
        k = k + 1;
    }
    proof {
        assert(s@.subrange(i as int, i + pat.len()) =~= pat@);
    }
    true
}

/// The first index at or after `from` where `pat` occurs in `s`.
pub fn find_from(s: &Vec<char>, pat: &Vec<char>, from: usize) -> (res: Option<usize>)
    ensures
        match res {
            Some(i) => from <= i && occurs_at(s@, pat@, i as int) && forall|j: int|
                from <= j < i ==> !occurs_at(s@, pat@, j),
            None => forall|j: int| from <= j ==> !occurs_at(s@, pat@, j),
        },
{
    if from > s.len() {
        return None;
    }
    let mut i: usize = from;
    while i < s.len()
        invariant
            from <= i <= s.len(),
            forall|j: int| from <= j < i ==> !occurs_at(s@, pat@, j),
        decreases s.len() - i,
    {
        if matches_at(s, pat, i) {
            return Some(i);
        }
        i = i + 1;
    }
    if matches_at(s, pat, s.len()) {
        return Some(s.len());
    }
    None
}

/// Where the meta tags go in the rendered index page: after the end of the
/// line that holds the viewport meta tag, if the page has one and that line
/// ends.
pub open spec fn og_insert_point(page: Seq<char>, v: int, n: int) -> bool {
    &&& occurs_at(page, "<meta name=\"viewport\""@, v)
    &&& forall|j: int| 0 <= j < v ==> !occurs_at(page, "<meta name=\"viewport\""@, j)
    &&& v <= n < page.len()
    &&& page[n] == '\n'
    &&& forall|j: int| v <= j < n ==> page[j] != '\n'
}

/// The page with the tags inserted after the viewport line, as
/// `insert_og_tags` does it.
pub open spec fn spec_insert_og(page: Seq<char>, tags: Seq<char>) -> Seq<char> {
    if exists|v: int, n: int| og_insert_point(page, v, n) {
        let (v, n) = choose|v: int, n: int| og_insert_point(page, v, n);
        page.take(n + 1) + tags + "\n"@ + page.skip(n + 1)
    } else {
        page
    }
}

proof fn lemma_insert_og(page: Seq<char>, tags: Seq<char>, res: Seq<char>)
    requires
        forall|v: int, n: int| og_insert_point(page, v, n) ==> res == page.take(n + 1) + tags
            + "\n"@ + page.skip(n + 1),
        !(exists|v: int, n: int| og_insert_point(page, v, n)) ==> res == page,
    ensures
        res == spec_insert_og(page, tags),
{
    if exists|v: int, n: int| og_insert_point(page, v, n) {
        let (v, n) = choose|v: int, n: int| og_insert_point(page, v, n);
        assert(og_insert_point(page, v, n));
    }
}

/// The invite page with its meta tags inserted after the viewport line;
/// the page as it is when it has no viewport tag or no line end after it.
pub fn insert_og_tags(page: &str, tags: &str) -> (res: String)
    ensures
        forall|v: int, n: int| og_insert_point(page@, v, n) ==> res@ == page@.take(n + 1) + tags@
            + "\n"@ + page@.skip(n + 1),
        !(exists|v: int, n: int| og_insert_point(page@, v, n)) ==> res@ == page@,
{
    let p = chars_of(page);
    let pat = chars_of("<meta name=\"viewport\"");
    let nl = chars_of("\n");
    proof {
        reveal_strlit("\n");
        assert(nl@ =~= seq!['\n']);
    }
    let v = match find_from(&p, &pat, 0) {
        Some(v) => v,
        None => {
            proof {
                assert forall|v: int, n: int| !og_insert_point(page@, v, n) by {
                    if og_insert_point(page@, v, n) {
                        assert(!occurs_at(page@, pat@, v));
                    }
                }
            }
            return String::from_str(page);
        },
    };
    let n = match find_from(&p, &nl, v) {
        Some(n) => n,
        None => {
            proof {
                assert forall|a: int, b: int| !og_insert_point(page@, a, b) by {
                    if og_insert_point(page@, a, b) {
                        assert(a == v);
                        assert(p@.subrange(b, b + 1) =~= nl@);
                        assert(occurs_at(p@, nl@, b));
                    }
                }
            }
            return String::from_str(page);
        },
    };
    proof {
        assert(p@.subrange(n as int, n + 1)[0] == '\n');
        assert forall|j: int| v <= j < n implies page@[j] != '\n' by {
            if page@[j] == '\n' {
                assert(p@.subrange(j, j + 1) =~= nl@);
                assert(occurs_at(p@, nl@, j));
            }
        }
        assert(og_insert_point(page@, v as int, n as int));
        assert forall|a: int, b: int| og_insert_point(page@, a, b) implies a == v && b == n by {
            if b < n {
                assert(page@[b] == '\n');
            }
            if b > n {
                assert(page@[n as int] == '\n');
            }
        }
    }
    let mut head: Vec<char> = Vec::new();
    let mut k: usize = 0;
    while k <= n
        invariant
            k <= n + 1,
            n < p.len(),
            head@ == p@.take(k as int),
        decreases n + 1 - k,
    {
        head.push(p[k]);
        proof {
            assert(p@.take(k + 1) =~= p@.take(k as int).push(p@[k as int]));
        }
        k = k + 1;
    }
    let mut tail: Vec<char> = Vec::new();
    let mut m: usize = n + 1;
    while m < p.len()
        invariant
            n + 1 <= m <= p@.len(),
            tail@ == p@.subrange(n + 1, m as int),
        decreases p.len() - m,
    {
        tail.push(p[m]);
        proof {
            assert(p@.subrange(n + 1, m + 1) =~= p@.subrange(n + 1, m as int).push(p@[m as int]));
        }
        m = m + 1;
    }
    let mut r = string_of(&head);
    r.append(tags);
    r.append("\n");
    let t = string_of(&tail);
    r.append(t.as_str());
    proof {
        assert(tail@ =~= p@.skip(n + 1));
    }
    r
}

/// `s` with every occurrence of `pat`, read from left to right without
/// overlaps, replaced by `rep`, as `str::replace` does.
pub open spec fn replace_all(s: Seq<char>, pat: Seq<char>, rep: Seq<char>) -> Seq<char>
    recommends
        pat.len() > 0,
    decreases s.len(),
{
    if pat.len() == 0 || s.len() < pat.len() {
        s
    } else if s.take(pat.len() as int) == pat {
        rep + replace_all(s.skip(pat.len() as int), pat, rep)
    } else {
        seq![s[0]] + replace_all(s.skip(1), pat, rep)
    }
}

/// Replaces every occurrence of a non-empty pattern.
pub fn replace_chars(s: &Vec<char>, pat: &Vec<char>, rep: &Vec<char>) -> (res: Vec<char>)
    requires
        pat@.len() > 0,
    ensures
        res@ == replace_all(s@, pat@, rep@),
{
    let mut out: Vec<char> = Vec::new();
    let mut i: usize = 0;
    proof {
        assert(s@.skip(0) =~= s@);
        assert(out@ + replace_all(s@, pat@, rep@) =~= replace_all(s@, pat@, rep@));
    }
    while i < s.len()
        invariant
            i <= s.len(),
            pat@.len() > 0,
            out@ + replace_all(s@.skip(i as int), pat@, rep@) == replace_all(s@, pat@, rep@),
        decreases s.len() - i,
    {
        let ghost rest = s@.skip(i as int);
        if matches_at(s, pat, i) {
            proof {
                assert(rest.take(pat@.len() as int) =~= s@.subrange(i as int, i + pat@.len()));
                assert(rest.skip(pat@.len() as int) =~= s@.skip(i + pat@.len()));
                assert(out@ + rep@ + replace_all(s@.skip(i + pat@.len()), pat@, rep@) =~= out@
                    + replace_all(rest, pat@, rep@));
            }
            let mut k: usize = 0;
            let ghost before = out@;
            while k < rep.len()
                invariant
                    k <= rep@.len(),
                    out@ == before + rep@.take(k as int),
                decreases rep.len() - k,
            {
                out.push(rep[k]);
                proof {
                    assert(rep@.take(k + 1) =~= rep@.take(k as int).push(rep@[k as int]));
                }
                k = k + 1;
            }
            proof {
                assert(rep@.take(rep@.len() as int) =~= rep@);
            }
            i = i + pat.len();
        } else {
            proof {
                if rest.len() >= pat@.len() {
                    assert(rest.take(pat@.len() as int) =~= s@.subrange(i as int, i + pat@.len()));
                }
                assert(rest.skip(1) =~= s@.skip(i + 1));
                assert(out@.push(s@[i as int]) + replace_all(s@.skip(i + 1), pat@, rep@) =~= out@
                    + replace_all(rest, pat@, rep@));
            }
            out.push(s[i]);
            i = i + 1;
        }
    }
    proof {
        assert(s@.skip(i as int) =~= Seq::<char>::empty());
        assert(out@ + Seq::<char>::empty() =~= out@);
    }
    out
}

/// The placeholder in the index page where the script setting up the
/// client's configuration goes.
pub open spec fn script_placeholder() -> Seq<char> {
    "<!-- VITE_JINJA_PLACEHOLDER:script -->"@
}

/// The script that hands the client its configuration, allowed by the
/// page's nonce.
pub open spec fn spec_config_script(nonce: Seq<char>, env_json: Seq<char>) -> Seq<char> {
    "<script nonce=\""@ + nonce + "\">globalThis.ENV = "@ + env_json + ";</script>"@
}

/// The configuration script of the client.
pub fn config_script(nonce: &str, env_json: &str) -> (res: String)
    ensures
        res@ == spec_config_script(nonce@, env_json@),
{
    let mut r = String::from_str("<script nonce=\"");
    r.append(nonce);
    r.append("\">globalThis.ENV = ");
    r.append(env_json);
    r.append(";</script>");
    r
}

/// The rendered page with every script placeholder replaced by the
/// configuration script.
pub fn insert_config_script(page: &str, nonce: &str, env_json: &str) -> (res: String)
    ensures
        res@ == replace_all(page@, script_placeholder(), spec_config_script(nonce@, env_json@)),
{
    let p = chars_of(page);
    let pat = chars_of("<!-- VITE_JINJA_PLACEHOLDER:script -->");
    proof {
        reveal_strlit("<!-- VITE_JINJA_PLACEHOLDER:script -->");
    }
    let script = config_script(nonce, env_json);
    let rep = chars_of(script.as_str());
    let out = replace_chars(&p, &pat, &rep);
    string_of(&out)
}

/// A fresh nonce for the page's content security policy: 16 random bytes
/// in padded standard base64.
pub fn make_nonce() -> (res: String)
    ensures
        exists|b: Seq<u8>| b.len() == 16 && res@ == spec_base64_standard(b),
{
    let bytes = random_bytes(16);
    base64_standard(bytes.as_slice())
}

/// The variables that the client's templates are rendered with: the page's
/// nonce as `nonce` and the client's configuration as `env`.
pub open spec fn spec_page_vars(nonce: Seq<char>, env_json: Seq<char>) -> Seq<(Seq<char>, Seq<char>)> {
    seq![("nonce"@, nonce), ("env"@, env_json)]
}

/// The template variables of a page.
pub fn page_vars(nonce: &str, env_json: &str) -> (res: Vec<(String, String)>)
    ensures
        res@.map_values(|p: (String, String)| (p.0@, p.1@)) == spec_page_vars(nonce@, env_json@),
{
    let mut v: Vec<(String, String)> = Vec::new();
    v.push((String::from_str("nonce"), String::from_str(nonce)));
    v.push((String::from_str("env"), String::from_str(env_json)));
    assert(v@.map_values(|p: (String, String)| (p.0@, p.1@)) =~= spec_page_vars(nonce@, env_json@));
    v
}

/// The client's index page: the template rendered with the page's nonce
/// and the client's configuration, then every script placeholder replaced
/// by the configuration script. A template error gives its message.
pub fn render_index(template: &str, nonce: &str, env_json: &str) -> (res: Result<String, String>)
    ensures
        match spec_render(template@, spec_page_vars(nonce@, env_json@)) {
            Ok(r) => res matches Ok(s) && s@ == replace_all(
                r,
                script_placeholder(),
                spec_config_script(nonce@, env_json@),
            ),
            Err(e) => res matches Err(m) && m@ == e,
        },
{
    let vars = page_vars(nonce, env_json);
    match render_template(template, &vars) {
        Ok(r) => Ok(insert_config_script(r.as_str(), nonce, env_json)),
        Err(e) => Err(e),
    }
}

/// An invite's page: the index template rendered as for the client, with
/// the invite's meta tags (titled `title`) inserted after the viewport line
/// before the script placeholders are replaced.
pub fn render_invite(template: &str, nonce: &str, env_json: &str, title: &str) -> (res: Result<
    String,
    String,
>)
    ensures
        match spec_render(template@, spec_page_vars(nonce@, env_json@)) {
            Ok(r) => res matches Ok(s) && s@ == replace_all(
                spec_insert_og(r, spec_og_tags(title@)),
                script_placeholder(),
                spec_config_script(nonce@, env_json@),
            ),
            Err(e) => res matches Err(m) && m@ == e,
        },
{
    let vars = page_vars(nonce, env_json);
    match render_template(template, &vars) {
        Ok(r) => {
            let tags = og_tags(title);
            let with_tags = insert_og_tags(r.as_str(), tags.as_str());
            proof {
                lemma_insert_og(r@, tags@, with_tags@);
            }
            Ok(insert_config_script(with_tags.as_str(), nonce, env_json))
        },
        Err(e) => Err(e),
    }
}

/// The configuration handed to the web client: where the API, the sync
/// socket, the web pages and the media are served.
pub struct WebuiConfig {
    pub api_url: String,
    pub sync_url: String,
    pub html_url: String,
    pub cdn_url: String,
}

/// The client's configuration, from the server's URLs (each given as its
/// serialization); the sync socket is at `/api/v1/sync` of the API's host.
/// An API URL that does not parse gives the parse error's message.
pub fn webui_config(api_url: &str, html_url: &str, cdn_url: &str) -> (res: Result<
    WebuiConfig,
    String,
>)
    ensures
        match spec_url_join(api_url@, "/api/v1/sync"@) {
            Ok(sync) => res matches Ok(c) && c.api_url@ == api_url@ && c.sync_url@ == sync
                && c.html_url@ == html_url@ && c.cdn_url@ == cdn_url@,
            Err(e) => res matches Err(m) && m@ == e,
        },
{
    match url_join(api_url, "/api/v1/sync") {
        Ok(sync_url) => Ok(
            WebuiConfig {
                api_url: String::from_str(api_url),
                sync_url,
                html_url: String::from_str(html_url),
                cdn_url: String::from_str(cdn_url),
            },
        ),
        Err(e) => Err(e),
    }
}

} // verus!
