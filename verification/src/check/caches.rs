//! Whether Nix fetches from the binary caches it should.

use crate::error::SystemError;
use crate::info::{NixInfo, Project};
use crate::text::{concat2, contains_text, has_text, join, joined, texts};
use crate::traits::{views, Check, CheckResult, CheckResultView, CheckView, Checkable};
use vstd::prelude::*;
use vstd::string::*;

verus! {

/// Check that `substituters` of `nix.conf` holds the official cache and
/// every cache that is asked for.
#[derive(Debug, PartialEq, Eq, Clone)]
pub struct Caches {
    pub enable: bool,
    /// Whether a failure of this check fails the run.
    pub required_check: bool,
    /// The caches that must be in use, each URL in its normal form.
    pub required: Vec<String>,
}

/// The normal form in which the `url` crate writes a URL; none where the
/// text is no URL.
pub uninterp spec fn url_normal_form(text: Seq<char>) -> Option<Seq<char>>;

/// Reads a URL with `url::Url::parse` and writes it out again. The
/// contract only names the result, [`url_normal_form`]: the same text is
/// always read alike.
#[verifier::external_body]
fn parse_url(text: &str) -> (r: Option<String>)
    ensures
        crate::env::text_of(r) == url_normal_form(text@),
{
    match url::Url::parse(text) {
        Ok(url) => Some(String::from(url)),
        Err(_) => None,
    }
}

/// The normal forms of the first `n` texts, or the first of them that is
/// no URL.
pub open spec fn normal_first(urls: Seq<Seq<char>>, n: nat) -> Result<Seq<Seq<char>>, Seq<char>>
    decreases n,
{
    if n == 0 {
        Ok(Seq::empty())
    } else {
        match normal_first(urls, (n - 1) as nat) {
            Err(bad) => Err(bad),
            Ok(before) => match url_normal_form(urls[n - 1]) {
                Some(url) => Ok(before.push(url)),
                None => Err(urls[n - 1]),
            },
        }
    }
}

/// The normal forms of the texts, or the first of them that is no URL.
pub open spec fn normal_forms(urls: Seq<Seq<char>>) -> Result<Seq<Seq<char>>, Seq<char>> {
    normal_first(urls, urls.len())
}

/// A list of URLs, or the text that is none, as a mathematical value.
pub open spec fn url_list(r: Result<Vec<String>, String>) -> Result<Seq<Seq<char>>, Seq<char>> {
    match r {
        Ok(urls) => Ok(texts(urls@)),
        Err(bad) => Err(bad@),
    }
}

/// The list is read exactly if each of its texts is a URL; it then holds
/// the normal form of each, in order. Else the text that is reported is
/// the first that is no URL.
pub proof fn lemma_normal_forms(urls: Seq<Seq<char>>, n: nat)
    requires
        n <= urls.len(),
    ensures
        match normal_first(urls, n) {
            Ok(normal) => normal.len() == n && forall|i: int|
                0 <= i < n ==> url_normal_form(urls[i]) == Some(#[trigger] normal[i]),
            Err(bad) => exists|i: int|
                0 <= i < n && #[trigger] urls[i] == bad && url_normal_form(urls[i]) is None
                    && forall|j: int| 0 <= j < i ==> url_normal_form(#[trigger] urls[j]) is Some,
        },
    decreases n,
{
    if n > 0 {
        let m = (n - 1) as nat;
        lemma_normal_forms(urls, m);
        match normal_first(urls, m) {
            Ok(before) => {
                if url_normal_form(urls[n - 1]) is None {
                    assert forall|j: int| 0 <= j < n - 1 implies url_normal_form(
                        #[trigger] urls[j],
                    ) is Some by {
                        assert(url_normal_form(urls[j]) == Some(before[j]));
                    }
                }
            },
            Err(bad) => {
                let i = choose|i: int|
                    0 <= i < m && #[trigger] urls[i] == bad && url_normal_form(urls[i]) is None
                        && forall|j: int| 0 <= j < i ==> url_normal_form(#[trigger] urls[j]) is Some;
                assert(0 <= i < n && urls[i] == bad);
            },
        }
    }
}

/// Reads a list of URLs and writes each in its normal form. The error is
/// the first text that is no URL.
pub fn normalize_urls(urls: &Vec<String>) -> (r: Result<Vec<String>, String>)
    ensures
        url_list(r) == normal_forms(texts(urls@)),
{
    let mut out: Vec<String> = Vec::new();
    let mut i: usize = 0;
    assert(texts(out@) =~= Seq::empty());
    while i < urls.len()
        invariant
            i <= urls.len(),
            normal_first(texts(urls@), i as nat) == Ok::<Seq<Seq<char>>, Seq<char>>(texts(out@)),
        decreases urls.len() - i,
    {
        let ghost before = texts(out@);
        assert(texts(urls@)[i as int] == urls[i as int]@);
        match parse_url(urls[i].as_str()) {
            Some(url) => {
                let ghost form = url@;
                out.push(url);
                assert(texts(out@) =~= before.push(form));
            },
            None => {
                proof {
                    lemma_normal_stays(texts(urls@), (i + 1) as nat, urls@.len());
                }
                return Err(urls[i].clone());
            },
        }
        i = i + 1;
    }
    Ok(out)
}

/// Once a text is no URL, the texts behind it change nothing.
proof fn lemma_normal_stays(urls: Seq<Seq<char>>, n: nat, m: nat)
    requires
        n <= m <= urls.len(),
        normal_first(urls, n) is Err,
    ensures
        normal_first(urls, m) == normal_first(urls, n),
    decreases m - n,
{
    if n < m {
        lemma_normal_stays(urls, n, (m - 1) as nat);
    }
}

/// The official cache, in the normal form of its URL.
pub open spec fn official_cache() -> Seq<char> {
    "https://cache.nixos.org/"@
}

impl Default for Caches {
    /// Enabled and required, asking for the official cache.
    fn default() -> (r: Self)
        ensures
            r.enable,
            r.required_check,
            texts(r.required@) == seq![official_cache()],
    {
        let mut required: Vec<String> = Vec::new();
        required.push(String::from_str("https://cache.nixos.org/"));
        assert(texts(required@) =~= seq![official_cache()]);
        Caches { enable: true, required_check: true, required }
    }
}

/// Those of the first `n` of `wanted` that are not among `active`, in
/// order.
pub open spec fn missing_first(wanted: Seq<Seq<char>>, active: Seq<Seq<char>>, n: nat) -> Seq<Seq<char>>
    decreases n,
{
    if n == 0 {
        Seq::empty()
    } else {
        let before = missing_first(wanted, active, (n - 1) as nat);
        if has_text(active, wanted[n - 1]) {
            before
        } else {
            before.push(wanted[n - 1])
        }
    }
}

/// Those of `wanted` that are not among `active`, in order.
pub open spec fn missing(wanted: Seq<Seq<char>>, active: Seq<Seq<char>>) -> Seq<Seq<char>> {
    missing_first(wanted, active, wanted.len())
}

/// Nothing is missing exactly if every cache asked for is in use.
pub proof fn lemma_missing_none(wanted: Seq<Seq<char>>, active: Seq<Seq<char>>, n: nat)
    requires
        n <= wanted.len(),
    ensures
        missing_first(wanted, active, n).len() == 0 <==> forall|i: int|
            0 <= i < n ==> has_text(active, #[trigger] wanted[i]),
        forall|j: int|
            0 <= j < missing_first(wanted, active, n).len() ==> !has_text(
                active,
                #[trigger] missing_first(wanted, active, n)[j],
            ),
    decreases n,
{
    if n > 0 {
        lemma_missing_none(wanted, active, (n - 1) as nat);
        if !has_text(active, wanted[n - 1]) {
            assert(missing_first(wanted, active, n).len() > 0);
        }
    }
}

impl Caches {
    /// The caches asked for that are not in use, in the order in which
    /// they are asked for.
    pub fn get_missing_caches(&self, active: &Vec<String>) -> (r: Vec<String>)
        ensures
            texts(r@) == missing(texts(self.required@), texts(active@)),
    {
        let mut out: Vec<String> = Vec::new();
        let mut i: usize = 0;
        while i < self.required.len()
            invariant
                i <= self.required.len(),
                texts(out@) == missing_first(texts(self.required@), texts(active@), i as nat),
            decreases self.required.len() - i,
        {
            let ghost before = texts(out@);
            assert(texts(self.required@)[i as int] == self.required[i as int]@);
            if !contains_text(active, self.required[i].as_str()) {
                out.push(self.required[i].clone());
                assert(texts(out@) =~= before.push(self.required[i as int]@));
            }
            i = i + 1;
        }
        out
    }
}

/// The result of this check. A missing official cache is reported as
/// such; else the caches asked for that are missing are named.
pub open spec fn caches_result(wanted: Seq<Seq<char>>, active: Seq<Seq<char>>) -> CheckResultView {
    if !has_text(active, official_cache()) {
        CheckResultView::Red {
            msg: "You are missing the official cache"@,
            suggestion: "Try looking in /etc/nix/nix.conf"@,
        }
    } else if missing(wanted, active).len() > 0 {
        CheckResultView::Red {
            msg: "You are missing a required cache: "@ + joined(missing(wanted, active), " "@),
            suggestion: "Add substituters in /etc/nix/nix.conf or use 'cachix use'"@,
        }
    } else {
        CheckResultView::Green
    }
}

/// The one outcome of this check.
pub open spec fn caches_outcome(unit: &Caches, active: Seq<Seq<char>>) -> CheckView {
    CheckView {
        title: "Nix Caches in use"@,
        info: "substituters = "@ + joined(active, " "@),
        result: caches_result(texts(unit.required@), active),
        required: unit.required_check,
    }
}

/// A cache is named as missing exactly if it is asked for and not in
/// use.
pub proof fn lemma_missing_holds(wanted: Seq<Seq<char>>, active: Seq<Seq<char>>, n: nat, url: Seq<char>)
    requires
        n <= wanted.len(),
    ensures
        has_text(missing_first(wanted, active, n), url) <==> !has_text(active, url) && exists|i: int|
            0 <= i < n && #[trigger] wanted[i] == url,
    decreases n,
{
    if n > 0 {
        let m = (n - 1) as nat;
        lemma_missing_holds(wanted, active, m, url);
        let before = missing_first(wanted, active, m);
        let now = missing_first(wanted, active, n);
        if has_text(now, url) {
            let j = choose|j: int| 0 <= j < now.len() && now[j] == url;
            if j < before.len() {
                assert(before[j] == url);
                let i = choose|i: int| 0 <= i < m && #[trigger] wanted[i] == url;
                assert(0 <= i < n && wanted[i] == url);
            } else {
                assert(wanted[n - 1] == url);
            }
        }
        if !has_text(active, url) && exists|i: int| 0 <= i < n && #[trigger] wanted[i] == url {
            let i = choose|i: int| 0 <= i < n && #[trigger] wanted[i] == url;
            if i < m {
                let j = choose|j: int| 0 <= j < before.len() && before[j] == url;
                assert(now[j] == url);
            } else {
                assert(now[now.len() - 1] == url);
            }
        }
    }
}

/// Where the official cache is in use and a cache that is asked for is
/// not, the check fails with a message that lists the missing caches,
/// that one among them, and not with the message on the official cache.
pub proof fn missing_cache_is_named(wanted: Seq<Seq<char>>, active: Seq<Seq<char>>, i: int)
    requires
        has_text(active, official_cache()),
        0 <= i < wanted.len(),
        !has_text(active, wanted[i]),
    ensures
        has_text(missing(wanted, active), wanted[i]),
        caches_result(wanted, active) == (CheckResultView::Red {
            msg: "You are missing a required cache: "@ + joined(missing(wanted, active), " "@),
            suggestion: "Add substituters in /etc/nix/nix.conf or use 'cachix use'"@,
        }),
{
    lemma_missing_holds(wanted, active, wanted.len(), wanted[i]);
}

/// The check is green exactly if the official cache and every cache asked
/// for are in use.
pub proof fn caches_green_iff_all_in_use(wanted: Seq<Seq<char>>, active: Seq<Seq<char>>)
    ensures
        caches_result(wanted, active) is Green <==> has_text(active, official_cache()) && forall|i: int|
            0 <= i < wanted.len() ==> has_text(active, #[trigger] wanted[i]),
{
    lemma_missing_none(wanted, active, wanted.len());
}

impl Checkable for Caches {
    open spec fn enabled(&self) -> bool {
        self.enable
    }

    open spec fn severity(&self) -> bool {
        self.required_check
    }

    open spec fn identity(&self) -> Seq<char> {
        "Nix Caches in use"@
    }

    fn name(&self) -> (r: String) {
        String::from_str("Nix Caches in use")
    }

    fn is_required(&self) -> (r: bool) {
        self.required_check
    }

    proof fn disabled_is_silent(&self, nix_info: &NixInfo, project: Option<&Project>) {
    }

    proof fn outcomes_carry_severity(&self, nix_info: &NixInfo, project: Option<&Project>) {
    }

    open spec fn outcomes(&self, nix_info: &NixInfo, project: Option<&Project>) -> Result<
        Seq<CheckView>,
        Seq<char>,
    > {
        if self.enable {
            Ok(seq![caches_outcome(self, texts(nix_info.nix_config.substituters@))])
        } else {
            Ok(Seq::empty())
        }
    }

    fn check(&self, nix_info: &NixInfo, project: Option<&Project>) -> (r: Result<
        Vec<Check>,
        SystemError,
    >) {
        let mut checks: Vec<Check> = Vec::new();
        if !self.enable {
            assert(views(checks@) =~= Seq::empty());
            return Ok(checks);
        }
        let val = &nix_info.nix_config.substituters;
        let result = if !contains_text(val, "https://cache.nixos.org/") {
            CheckResult::Red {
                msg: String::from_str("You are missing the official cache"),
                suggestion: String::from_str("Try looking in /etc/nix/nix.conf"),
            }
        } else {
            let missing = self.get_missing_caches(val);
            if missing.len() > 0 {
                CheckResult::Red {
                    msg: concat2("You are missing a required cache: ", join(&missing, " ").as_str()),
                    suggestion: String::from_str(
                        "Add substituters in /etc/nix/nix.conf or use 'cachix use'",
                    ),
                }
            } else {
                CheckResult::Green
            }
        };
        checks.push(
            Check {
                title: String::from_str("Nix Caches in use"),
                info: concat2("substituters = ", join(val, " ").as_str()),
                result,
                required: self.required_check,
            },
        );
        assert(views(checks@) =~= seq![caches_outcome(self, texts(val@))]);
        Ok(checks)
    }
}

} // verus!
