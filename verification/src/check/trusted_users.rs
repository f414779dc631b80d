//! Whether the current user is trusted by the Nix daemon.

use crate::error::SystemError;
use crate::info::{NixInfo, Project};
use crate::text::{concat2, concat3, contains_text, has_text, join, joined, texts};
use crate::traits::{Check, CheckResult, CheckResultView, CheckView, Checkable};
use itertools::{Either, Itertools};
use vstd::prelude::*;
use vstd::string::*;

verus! {

/// Check that `trusted-users` of `nix.conf` covers the current user.
#[derive(Debug, Clone, PartialEq, Eq)]
pub struct TrustedUsers {
    pub enable: bool,
    /// Whether a failure of this check fails the run.
    pub required: bool,
}

impl Default for TrustedUsers {
    fn default() -> (r: Self)
        ensures
            r == (TrustedUsers { enable: true, required: true }),
    {
        TrustedUsers { enable: true, required: true }
    }
}

/// What one entry of `trusted-users` names: a group, written with `@` in
/// front of its name, or a user.
#[derive(Debug, Clone, PartialEq, Eq)]
pub enum UserEntry {
    Group(String),
    User(String),
}

impl UserEntry {
    pub open spec fn is_group(self) -> bool {
        self is Group
    }

    /// The name of the group or user, without the `@`.
    pub open spec fn name(self) -> Seq<char> {
        match self {
            UserEntry::Group(g) => g@,
            UserEntry::User(u) => u@,
        }
    }

    /// Whether this is what `entry` reads as.
    pub open spec fn reads(self, entry: Seq<char>) -> bool {
        if names_group(entry) {
            self.is_group() && self.name() == entry.skip(1)
        } else {
            !self.is_group() && self.name() == entry
        }
    }

    /// Reads one entry of `trusted-users`.
    pub fn parse(entry: &str) -> (r: UserEntry)
        ensures
            r.reads(entry@),
    {
        let n = entry.unicode_len();
        if n > 0 && entry.get_char(0) == '@' {
            let name = entry.substring_char(1, n);
            assert(name@ =~= entry@.skip(1));
            UserEntry::Group(String::from_str(name))
        } else {
            UserEntry::User(String::from_str(entry))
        }
    }
}

/// Whether an entry of `trusted-users` names a group.
pub open spec fn names_group(entry: Seq<char>) -> bool {
    entry.len() > 0 && entry[0] == '@'
}

/// Whether an entry of `trusted-users` covers `user`, who belongs to
/// `groups`: a group entry covers the members of that group, a user entry
/// the user of that name.
pub open spec fn covers(entry: Seq<char>, user: Seq<char>, groups: Seq<Seq<char>>) -> bool {
    if names_group(entry) {
        has_text(groups, entry.skip(1))
    } else {
        entry == user
    }
}

/// Whether some entry of `trusted` covers `user`.
pub open spec fn trusted(trusted: Seq<Seq<char>>, user: Seq<char>, groups: Seq<Seq<char>>) -> bool {
    exists|i: int| 0 <= i < trusted.len() && covers(#[trigger] trusted[i], user, groups)
}

/// The user is trusted exactly if the list holds the user's name, which
/// is no group reference, or holds `@` and the name of a group that the
/// user belongs to.
pub proof fn trusted_by_name_or_group(listed: Seq<Seq<char>>, user: Seq<char>, groups: Seq<Seq<char>>)
    ensures
        trusted(listed, user, groups) <==> (!names_group(user) && has_text(listed, user)) || exists|j: int|
            0 <= j < groups.len() && has_text(listed, seq!['@'] + #[trigger] groups[j]),
{
    if trusted(listed, user, groups) {
        let i = choose|i: int| 0 <= i < listed.len() && covers(#[trigger] listed[i], user, groups);
        if names_group(listed[i]) {
            let j = choose|j: int| 0 <= j < groups.len() && groups[j] == listed[i].skip(1);
            assert(listed[i] =~= seq!['@'] + groups[j]);
            assert(has_text(listed, seq!['@'] + groups[j]));
        } else {
            assert(has_text(listed, user));
        }
    }
    if !names_group(user) && has_text(listed, user) {
        let i = choose|i: int| 0 <= i < listed.len() && listed[i] == user;
        assert(covers(listed[i], user, groups));
    }
    if exists|j: int| 0 <= j < groups.len() && has_text(listed, seq!['@'] + #[trigger] groups[j]) {
        let j = choose|j: int| 0 <= j < groups.len() && has_text(listed, seq!['@'] + #[trigger] groups[j]);
        let reference = seq!['@'] + groups[j];
        let i = choose|i: int| 0 <= i < listed.len() && listed[i] == reference;
        assert(reference.skip(1) =~= groups[j]);
        assert(names_group(listed[i]));
        assert(has_text(groups, listed[i].skip(1)));
        assert(covers(listed[i], user, groups));
    }
}

/// The names of the groups (`groups` set) or of the users (not set) among
/// the first `n` entries, in order.
pub open spec fn names_first(entries: Seq<UserEntry>, groups: bool, n: nat) -> Seq<Seq<char>>
    decreases n,
{
    if n == 0 {
        Seq::empty()
    } else {
        let before = names_first(entries, groups, (n - 1) as nat);
        if entries[n - 1].is_group() == groups {
            before.push(entries[n - 1].name())
        } else {
            before
        }
    }
}

/// A name among `names_first` satisfies `p` exactly if an entry of that
/// side does.
proof fn lemma_names_first(entries: Seq<UserEntry>, groups: bool, n: nat, p: spec_fn(Seq<char>) -> bool)
    requires
        n <= entries.len(),
    ensures
        (exists|j: int| 0 <= j < names_first(entries, groups, n).len() && p(#[trigger] names_first(entries, groups, n)[j]))
            <==> (exists|i: int| 0 <= i < n && (#[trigger] entries[i]).is_group() == groups && p(entries[i].name())),
    decreases n,
{
    if n > 0 {
        let m = (n - 1) as nat;
        lemma_names_first(entries, groups, m, p);
        let before = names_first(entries, groups, m);
        let now = names_first(entries, groups, n);
        let last = entries[n - 1];
        if exists|j: int| 0 <= j < now.len() && p(#[trigger] now[j]) {
            let j = choose|j: int| 0 <= j < now.len() && p(#[trigger] now[j]);
            if j < before.len() {
                assert(p(before[j]));
                let i = choose|i: int| 0 <= i < m && (#[trigger] entries[i]).is_group() == groups && p(entries[i].name());
                assert(0 <= i < n && entries[i].is_group() == groups && p(entries[i].name()));
            } else {
                assert(last.is_group() == groups && p(last.name()));
            }
        }
        if exists|i: int| 0 <= i < n && (#[trigger] entries[i]).is_group() == groups && p(entries[i].name()) {
            let i = choose|i: int| 0 <= i < n && (#[trigger] entries[i]).is_group() == groups && p(entries[i].name());
            if i < m {
                let j = choose|j: int| 0 <= j < before.len() && p(#[trigger] before[j]);
                assert(p(now[j]));
            } else {
                assert(p(now[now.len() - 1]));
            }
        }
    }
}

/// Sorts the entries into the names of the groups and the names of the
/// users with itertools' `partition_map`, which hands each item to one of
/// two collections and keeps the order in which the items came.
#[verifier::external_body]
fn partition_entries(entries: Vec<UserEntry>) -> (r: (Vec<String>, Vec<String>))
    ensures
        texts(r.0@) == names_first(entries@, true, entries@.len()),
        texts(r.1@) == names_first(entries@, false, entries@.len()),
{
    entries.into_iter().partition_map(
        |entry| match entry {
            UserEntry::Group(group) => Either::Left(group),
            UserEntry::User(user) => Either::Right(user),
        },
    )
}

/// Whether one of `names` is among `among`.
fn any_among(names: &Vec<String>, among: &Vec<String>) -> (r: bool)
    ensures
        r == exists|j: int| 0 <= j < names@.len() && has_text(texts(among@), #[trigger] texts(names@)[j]),
{
    let mut i: usize = 0;
    while i < names.len()
        invariant
            i <= names.len(),
            forall|j: int| 0 <= j < i ==> !has_text(texts(among@), #[trigger] texts(names@)[j]),
        decreases names.len() - i,
    {
        assert(texts(names@)[i as int] == names[i as int]@);
        if contains_text(among, names[i].as_str()) {
            return true;
        }
        i = i + 1;
    }
    false
}

/// What to do about a user who is not trusted: where the system has a
/// declarative configuration, change that; else edit `nix.conf`.
pub open spec fn trust_suggestion(user: Seq<char>, label: Option<Seq<char>>) -> Seq<char> {
    match label {
        Some(label) => "Add `nix.trustedUsers = [ \"root\" \""@ + user + "\" ];` to your "@ + label,
        None => "Set `trusted-users = root "@ + user
            + "` in /etc/nix/nix.conf and then restart the Nix daemon using `sudo pkill nix-daemon`"@,
    }
}

/// The one outcome of this check.
pub open spec fn trusted_users_outcome(required: bool, nix_info: &NixInfo) -> CheckView {
    let listed = texts(nix_info.nix_config.trusted_users@);
    let user = nix_info.nix_env.current_user@;
    CheckView {
        title: "Trusted Users"@,
        info: "trusted-users = "@ + joined(listed, " "@),
        result: if trusted(listed, user, texts(nix_info.nix_env.current_user_groups@)) {
            CheckResultView::Green
        } else {
            CheckResultView::Red {
                msg: "User '"@ + user + "' not present in trusted_users"@,
                suggestion: trust_suggestion(user, nix_info.nix_env.os.config_label()),
            }
        },
        required,
    }
}

impl TrustedUsers {
    /// Whether `trusted-users` covers the current user: by name, or by a
    /// group that the user belongs to.
    pub fn is_trusted(nix_info: &NixInfo) -> (r: bool)
        ensures
            r == trusted(
                texts(nix_info.nix_config.trusted_users@),
                nix_info.nix_env.current_user@,
                texts(nix_info.nix_env.current_user_groups@),
            ),
    {
        let val = &nix_info.nix_config.trusted_users;
        let ghost listed = texts(val@);
        let ghost user = nix_info.nix_env.current_user@;
        let ghost groups = texts(nix_info.nix_env.current_user_groups@);
        let mut entries: Vec<UserEntry> = Vec::new();
        let mut i: usize = 0;
        while i < val.len()
            invariant
                i <= val.len(),
                entries@.len() == i,
                listed == texts(val@),
                forall|j: int| 0 <= j < i ==> (#[trigger] entries@[j]).reads(listed[j]),
            decreases val.len() - i,
        {
            entries.push(UserEntry::parse(val[i].as_str()));
            i = i + 1;
        }
        let ghost read = entries@;
        let (val_groups, val_users) = partition_entries(entries);
        let by_name = contains_text(&val_users, nix_info.nix_env.current_user.as_str());
        let by_group = any_among(&val_groups, &nix_info.nix_env.current_user_groups);
        proof {
            let n = read.len();
            let is_user = |name: Seq<char>| name == user;
            let in_group = |name: Seq<char>| has_text(groups, name);
            lemma_names_first(read, false, n, is_user);
            lemma_names_first(read, true, n, in_group);
            let users = names_first(read, false, n);
            let named = names_first(read, true, n);
            if by_name {
                let j = choose|j: int| 0 <= j < users.len() && users[j] == user;
                assert(is_user(users[j]));
                let k = choose|k: int| 0 <= k < n && (#[trigger] read[k]).is_group() == false && is_user(read[k].name());
                assert(covers(listed[k], user, groups));
            }
            if by_group {
                let j = choose|j: int| 0 <= j < named.len() && has_text(groups, #[trigger] texts(val_groups@)[j]);
                assert(in_group(named[j]));
                let k = choose|k: int| 0 <= k < n && (#[trigger] read[k]).is_group() == true && in_group(read[k].name());
                assert(covers(listed[k], user, groups));
            }
            if trusted(listed, user, groups) {
                let k = choose|k: int| 0 <= k < listed.len() && covers(#[trigger] listed[k], user, groups);
                assert(read[k].reads(listed[k]));
                if names_group(listed[k]) {
                    assert(read[k].is_group() == true && in_group(read[k].name()));
                    let j = choose|j: int| 0 <= j < named.len() && in_group(#[trigger] named[j]);
                    assert(has_text(groups, texts(val_groups@)[j]));
                } else {
                    assert(read[k].is_group() == false && is_user(read[k].name()));
                    let j = choose|j: int| 0 <= j < users.len() && is_user(#[trigger] users[j]);
                    assert(users[j] == user);
                }
            }
        }
        by_name || by_group
    }

    /// What to do about a current user who is not trusted.
    fn suggestion(nix_info: &NixInfo) -> (r: String)
        ensures
            r@ == trust_suggestion(nix_info.nix_env.current_user@, nix_info.nix_env.os.config_label()),
    {
        let user = nix_info.nix_env.current_user.as_str();
        match nix_info.nix_env.os.nix_system_config_label() {
            Some(label) => {
                let mut out = concat3("Add `nix.trustedUsers = [ \"root\" \"", user, "\" ];` to your ");
                out.append(label.as_str());
                out
            },
            None => concat3(
                "Set `trusted-users = root ",
                user,
                "` in /etc/nix/nix.conf and then restart the Nix daemon using `sudo pkill nix-daemon`",
            ),
        }
    }
}

impl Checkable for TrustedUsers {
    open spec fn enabled(&self) -> bool {
        self.enable
    }

    open spec fn severity(&self) -> bool {
        self.required
    }

    open spec fn identity(&self) -> Seq<char> {
        "Trusted Users"@
    }

    fn name(&self) -> (r: String) {
        String::from_str("Trusted Users")
    }

    fn is_required(&self) -> (r: bool) {
        self.required
    }

    proof fn disabled_is_silent(&self, nix_info: &NixInfo, project: Option<&Project>) {
    }

    proof fn outcomes_carry_severity(&self, nix_info: &NixInfo, project: Option<&Project>) {
    }

    open spec fn outcomes(&self, nix_info: &NixInfo, project: Option<&Project>) -> Result<
        Seq<CheckView>,
        Seq<char>,
    > {
        if self.enable {
            Ok(seq![trusted_users_outcome(self.required, nix_info)])
        } else {
            Ok(Seq::empty())
        }
    }

    fn check(&self, nix_info: &NixInfo, project: Option<&Project>) -> (r: Result<
        Vec<Check>,
        SystemError,
    >) {
        let mut checks: Vec<Check> = Vec::new();
        if !self.enable {
            assert(crate::traits::views(checks@) =~= Seq::empty());
            return Ok(checks);
        }
        let user = nix_info.nix_env.current_user.as_str();
        let result = if TrustedUsers::is_trusted(nix_info) {
            CheckResult::Green
        } else {
            CheckResult::Red {
                msg: concat3("User '", user, "' not present in trusted_users"),
                suggestion: TrustedUsers::suggestion(nix_info),
            }
        };
        let check = Check {
            title: String::from_str("Trusted Users"),
            info: concat2("trusted-users = ", join(&nix_info.nix_config.trusted_users, " ").as_str()),
            result,
            required: self.required,
        };
        checks.push(check);
        assert(crate::traits::views(checks@) =~= seq![trusted_users_outcome(self.required, nix_info)]);
        Ok(checks)
    }
}

} // verus!
