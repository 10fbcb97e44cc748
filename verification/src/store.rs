use vstd::prelude::*;

use crate::error::MemoryError;
use crate::text::{
    ascii_upper, ascii_upper_char, chars_of, has_prefix, is_ascii_alnum, is_ascii_alnum_char,
    str_eq, string_from_chars, utf8_len,
};
use crate::validation::field_msg;

verus! {

/// Longest store name, in bytes.
pub const MAX_STORE_NAME_LEN: usize = 64;

/// A store file in the base directory and its size on disk (with its WAL
/// and shared-memory files).
#[derive(Debug, Clone)]
pub struct StoreInfo {
    pub name: String,
    pub size_bytes: u64,
}

// --- store names ---

/// Device names that Windows reserves, which no store may be named after.
pub open spec fn is_reserved_device(u: Seq<char>) -> bool {
    ||| u == "CON"@
    ||| u == "PRN"@
    ||| u == "AUX"@
    ||| u == "NUL"@
    ||| u == "COM1"@
    ||| u == "COM2"@
    ||| u == "COM3"@
    ||| u == "COM4"@
    ||| u == "COM5"@
    ||| u == "COM6"@
    ||| u == "COM7"@
    ||| u == "COM8"@
    ||| u == "COM9"@
    ||| u == "LPT1"@
    ||| u == "LPT2"@
    ||| u == "LPT3"@
    ||| u == "LPT4"@
    ||| u == "LPT5"@
    ||| u == "LPT6"@
    ||| u == "LPT7"@
    ||| u == "LPT8"@
    ||| u == "LPT9"@
}

pub open spec fn is_name_char(c: char) -> bool {
    is_ascii_alnum(c) || c == '_' || c == '-'
}

/// A valid store name: 1 to 64 bytes, an ASCII letter or digit first, then
/// ASCII letters, digits, `_` and `-`, and not a reserved device name in any
/// letter case.  (Such a name holds no `.`, so the whole name is what would
/// stand before a file extension.)
pub open spec fn store_name_ok(name: Seq<char>) -> bool {
    &&& name.len() > 0
    &&& utf8_len(name) <= MAX_STORE_NAME_LEN
    &&& is_ascii_alnum(name[0])
    &&& forall|i: int| 1 <= i < name.len() ==> is_name_char(#[trigger] name[i])
    &&& !is_reserved_device(name.map_values(|c: char| ascii_upper(c)))
}

/// A name of at most 64 bytes and at least five characters, starting with an
/// ASCII letter or digit and going on with ASCII letters, digits, `_` and
/// `-`, is a valid store name: such a name is never a reserved device name.
pub proof fn law_plain_store_name_accepted(name: Seq<char>)
    requires
        5 <= name.len(),
        utf8_len(name) <= 64,
        ('0' <= name[0] <= '9') || ('A' <= name[0] <= 'Z') || ('a' <= name[0] <= 'z'),
        forall|i: int|
            1 <= i < name.len() ==> ('0' <= #[trigger] name[i] <= '9') || ('A' <= name[i] <= 'Z')
                || ('a' <= name[i] <= 'z') || name[i] == '_' || name[i] == '-',
    ensures
        store_name_ok(name),
{
    reveal_strlit("CON");
    reveal_strlit("PRN");
    reveal_strlit("AUX");
    reveal_strlit("NUL");
    reveal_strlit("COM1");
    reveal_strlit("COM2");
    reveal_strlit("COM3");
    reveal_strlit("COM4");
    reveal_strlit("COM5");
    reveal_strlit("COM6");
    reveal_strlit("COM7");
    reveal_strlit("COM8");
    reveal_strlit("COM9");
    reveal_strlit("LPT1");
    reveal_strlit("LPT2");
    reveal_strlit("LPT3");
    reveal_strlit("LPT4");
    reveal_strlit("LPT5");
    reveal_strlit("LPT6");
    reveal_strlit("LPT7");
    reveal_strlit("LPT8");
    reveal_strlit("LPT9");
    let u = name.map_values(|c: char| ascii_upper(c));
    assert(u.len() == name.len());
}

/// Reserved device names are refused in any letter case: a name whose
/// upper-case form is `CON`, `PRN`, `AUX`, `NUL`, or `COM` or `LPT` followed
/// by a digit from 1 to 9, is not a valid store name, and these are the only
/// names refused for being a device.
pub proof fn law_reserved_device_names(u: Seq<char>)
    ensures
        is_reserved_device(u) <==> (u == "CON"@ || u == "PRN"@ || u == "AUX"@ || u == "NUL"@ || (
        u.len() == 4 && (u.take(3) == "COM"@ || u.take(3) == "LPT"@) && '1' <= u[3] <= '9')),
{
    reveal_strlit("CON");
    reveal_strlit("PRN");
    reveal_strlit("AUX");
    reveal_strlit("NUL");
    reveal_strlit("COM1");
    reveal_strlit("COM2");
    reveal_strlit("COM3");
    reveal_strlit("COM4");
    reveal_strlit("COM5");
    reveal_strlit("COM6");
    reveal_strlit("COM7");
    reveal_strlit("COM8");
    reveal_strlit("COM9");
    reveal_strlit("LPT1");
    reveal_strlit("LPT2");
    reveal_strlit("LPT3");
    reveal_strlit("LPT4");
    reveal_strlit("LPT5");
    reveal_strlit("LPT6");
    reveal_strlit("LPT7");
    reveal_strlit("LPT8");
    reveal_strlit("LPT9");
    reveal_strlit("COM");
    reveal_strlit("LPT");
    if u.len() == 4 && (u.take(3) == "COM"@ || u.take(3) == "LPT"@) && '1' <= u[3] <= '9' {
        let d = u[3];
        assert(u =~= u.take(3).push(d));
        if u.take(3) == "COM"@ {
            if d == '1' { assert(u =~= "COM1"@); }
            else if d == '2' { assert(u =~= "COM2"@); }
            else if d == '3' { assert(u =~= "COM3"@); }
            else if d == '4' { assert(u =~= "COM4"@); }
            else if d == '5' { assert(u =~= "COM5"@); }
            else if d == '6' { assert(u =~= "COM6"@); }
            else if d == '7' { assert(u =~= "COM7"@); }
            else if d == '8' { assert(u =~= "COM8"@); }
            else { assert(u =~= "COM9"@); }
        } else {
            if d == '1' { assert(u =~= "LPT1"@); }
            else if d == '2' { assert(u =~= "LPT2"@); }
            else if d == '3' { assert(u =~= "LPT3"@); }
            else if d == '4' { assert(u =~= "LPT4"@); }
            else if d == '5' { assert(u =~= "LPT5"@); }
            else if d == '6' { assert(u =~= "LPT6"@); }
            else if d == '7' { assert(u =~= "LPT7"@); }
            else if d == '8' { assert(u =~= "LPT8"@); }
            else { assert(u =~= "LPT9"@); }
        }
    }
    if is_reserved_device(u) && u.len() == 4 {
        assert(u.take(3) == "COM"@ || u.take(3) == "LPT"@);
    }
}

pub open spec fn rejects_name(r: Result<(), MemoryError>, name: Seq<char>) -> bool {
    r matches Err(MemoryError::InvalidName(s)) && s@ == name
}

fn reserved_device(u: &str) -> (r: bool)
    ensures
        r == is_reserved_device(u@),
{
    str_eq(u, "CON") || str_eq(u, "PRN") || str_eq(u, "AUX") || str_eq(u, "NUL") || str_eq(
        u,
        "COM1",
    ) || str_eq(u, "COM2") || str_eq(u, "COM3") || str_eq(u, "COM4") || str_eq(u, "COM5")
        || str_eq(u, "COM6") || str_eq(u, "COM7") || str_eq(u, "COM8") || str_eq(u, "COM9")
        || str_eq(u, "LPT1") || str_eq(u, "LPT2") || str_eq(u, "LPT3") || str_eq(u, "LPT4")
        || str_eq(u, "LPT5") || str_eq(u, "LPT6") || str_eq(u, "LPT7") || str_eq(u, "LPT8")
        || str_eq(u, "LPT9")
}

/// Validates a store name; a rejected name comes back in `InvalidName`.
pub fn validate_name(name: &str) -> (r: Result<(), MemoryError>)
    ensures
        r is Ok <==> store_name_ok(name@),
        r is Err ==> rejects_name(r, name@),
{
    let bad = Err(MemoryError::InvalidName(String::from_str(name)));
    if name.is_empty() || name.as_bytes().len() > MAX_STORE_NAME_LEN {
        return bad;
    }
    let cs = chars_of(name);
    if !is_ascii_alnum_char(cs[0]) {
        return bad;
    }
    let mut upper: Vec<char> = Vec::new();
    upper.push(ascii_upper_char(cs[0]));
    let mut i: usize = 1;
    while i < cs.len()
        invariant
            cs@ == name@,
            rejects_name(bad, name@),
            name@.len() > 0,
            1 <= i <= cs@.len(),
            forall|j: int| 1 <= j < i ==> is_name_char(#[trigger] cs@[j]),
            upper@ == cs@.take(i as int).map_values(|c: char| ascii_upper(c)),
        decreases cs@.len() - i,
    {
        let c = cs[i];
        if !(is_ascii_alnum_char(c) || c == '_' || c == '-') {
            return bad;
        }
        upper.push(ascii_upper_char(c));
        assert(cs@.take(i + 1).map_values(|c: char| ascii_upper(c)) =~= cs@.take(
            i as int,
        ).map_values(|c: char| ascii_upper(c)).push(ascii_upper(c)));
        i = i + 1;
    }
    assert(cs@.take(cs@.len() as int) =~= cs@);
    let u = string_from_chars(&upper);
    if reserved_device(u.as_str()) {
        return bad;
    }
    Ok(())
}

/// File name of a store's database: the name followed by `.db`.
pub fn store_file_name(name: &str) -> (r: String)
    ensures
        r@ == name@ + ".db"@,
{
    field_msg(name, ".db")
}

// --- the base directory ---

/// Paths the base directory may not lie under: device, process and kernel
/// pseudo-filesystems.
pub open spec fn restricted_path(p: Seq<char>) -> bool {
    ||| p.take(5) == "/dev/"@ && p.len() >= 5
    ||| p.take(6) == "/proc/"@ && p.len() >= 6
    ||| p.take(5) == "/sys/"@ && p.len() >= 5
}

/// Whether a path lies under `/dev/`, `/proc/` or `/sys/`.
pub fn has_bad_prefix(p: &str) -> (r: bool)
    ensures
        r == restricted_path(p@),
{
    proof {
        reveal_strlit("/dev/");
        reveal_strlit("/proc/");
        reveal_strlit("/sys/");
    }
    has_prefix(p, "/dev/") || has_prefix(p, "/proc/") || has_prefix(p, "/sys/")
}

/// A Unix path is absolute when it starts at the root `/`.
pub open spec fn is_absolute_path(p: Seq<char>) -> bool {
    p.len() > 0 && p[0] == '/'
}

/// A Unix path has a `..` component: two dots bounded by `/` or the path's ends.
pub open spec fn has_parent_component(p: Seq<char>) -> bool {
    exists|i: int|
        0 <= i && i + 2 <= p.len() && #[trigger] p[i] == '.' && p[i + 1] == '.' && (i == 0 || p[i
            - 1] == '/') && (i + 2 == p.len() || p[i + 2] == '/')
}

fn parent_component(p: &str) -> (r: bool)
    ensures
        r == has_parent_component(p@),
{
    let cs = chars_of(p);
    let n = cs.len();
    if n < 2 {
        return false;
    }
    let mut i: usize = 0;
    while i <= n - 2
        invariant
            cs@ == p@,
            n == cs@.len(),
            n >= 2,
            forall|j: int|
                0 <= j < i && j + 2 <= n ==> !(#[trigger] cs@[j] == '.' && cs@[j + 1] == '.' && (j
                    == 0 || cs@[j - 1] == '/') && (j + 2 == n || cs@[j + 2] == '/')),
        decreases n - i,
    {
        if cs[i] == '.' && cs[i + 1] == '.' && (i == 0 || cs[i - 1] == '/') && (i + 2 == n
            || cs[i + 2] == '/') {
            return true;
        }
        i = i + 1;
    }
    false
}

/// Where the base directory comes from.
#[derive(Debug, Clone, Copy, PartialEq, Eq)]
pub enum HomeSource {
    /// `LOCAL_MEMORY_HOME` is unset or empty: the per-user default directory.
    Default,
    /// The directory `LOCAL_MEMORY_HOME` names.
    Configured,
}

pub open spec fn rejects_path(r: Result<HomeSource, MemoryError>, msg: Seq<char>) -> bool {
    r matches Err(MemoryError::InvalidPath(s)) && s@ == msg
}

/// The checks on the `LOCAL_MEMORY_HOME` setting, in order: unset or empty
/// selects the default; otherwise it must be absolute, hold no `..`
/// component, and not lie under a restricted path.
pub fn check_home_setting(value: Option<&str>) -> (r: Result<HomeSource, MemoryError>)
    ensures
        match value {
            None => r == Ok::<HomeSource, MemoryError>(HomeSource::Default),
            Some(v) => if v@.len() == 0 {
                r == Ok::<HomeSource, MemoryError>(HomeSource::Default)
            } else if !is_absolute_path(v@) {
                rejects_path(r, "LOCAL_MEMORY_HOME must be absolute: "@ + v@)
            } else if has_parent_component(v@) {
                rejects_path(r, "LOCAL_MEMORY_HOME must not contain '..': "@ + v@)
            } else if restricted_path(v@) {
                rejects_path(r, "LOCAL_MEMORY_HOME points to a restricted path: "@ + v@)
            } else {
                r == Ok::<HomeSource, MemoryError>(HomeSource::Configured)
            },
        },
{
    match value {
        None => Ok(HomeSource::Default),
        Some(v) => {
            if v.is_empty() {
                return Ok(HomeSource::Default);
            }
            let cs = chars_of(v);
            if cs[0] != '/' {
                let mut m = String::from_str("LOCAL_MEMORY_HOME must be absolute: ");
                m.append(v);
                return Err(MemoryError::InvalidPath(m));
            }
            if parent_component(v) {
                let mut m = String::from_str("LOCAL_MEMORY_HOME must not contain '..': ");
                m.append(v);
                return Err(MemoryError::InvalidPath(m));
            }
            if has_bad_prefix(v) {
                let mut m = String::from_str("LOCAL_MEMORY_HOME points to a restricted path: ");
                m.append(v);
                return Err(MemoryError::InvalidPath(m));
            }
            Ok(HomeSource::Configured)
        },
    }
}

/// The check on the canonical form of a configured base directory that exists.
pub fn check_resolved_home(canonical: &str) -> (r: Result<(), MemoryError>)
    ensures
        r is Ok <==> !restricted_path(canonical@),
        r matches Err(e) ==> (e matches MemoryError::InvalidPath(s) && s@
            == "LOCAL_MEMORY_HOME resolves to a restricted path: "@ + canonical@),
{
    if has_bad_prefix(canonical) {
        let mut m = String::from_str("LOCAL_MEMORY_HOME resolves to a restricted path: ");
        m.append(canonical);
        return Err(MemoryError::InvalidPath(m));
    }
    Ok(())
}

// --- the active store ---

/// The open store, if any: its name together with its connection, so that a
/// connection is at hand exactly when a store is active.
pub struct StoreSelection<C> {
    active: Option<(String, C)>,
}

/// What switching to a store takes.
#[derive(Debug, Clone, Copy, PartialEq, Eq)]
pub enum SwitchStep {
    /// The store is already the active one: nothing to do.
    Stay,
    /// Close the active store (if any), then open the named one.
    Reopen,
}

/// The step switching to `name` takes while `active` is open.
pub open spec fn switch_step_for(active: Option<Seq<char>>, name: Seq<char>) -> SwitchStep {
    if active == Some(name) {
        SwitchStep::Stay
    } else {
        SwitchStep::Reopen
    }
}

/// The next step of a switch to another store.
#[derive(Debug, Clone, Copy, PartialEq, Eq)]
pub enum SwitchAction {
    /// The target store is active: the switch is complete.
    Finished,
    /// Checkpoint and close the active store first.
    CloseActive,
    /// No store is open: open the target store.
    OpenTarget,
}

/// The next step while `active` is open and `target` is wanted: nothing
/// when it is already active, else close whatever is open, then open it.
pub open spec fn switch_action_for(active: Option<Seq<char>>, target: Seq<char>) -> SwitchAction {
    if active == Some(target) {
        SwitchAction::Finished
    } else if active is Some {
        SwitchAction::CloseActive
    } else {
        SwitchAction::OpenTarget
    }
}

/// A switch closes the active store before it opens the target, and ends
/// with the target active: from any store, the steps are close, open,
/// done; from none, open, done; from the target itself, done at once.
pub proof fn law_switch_closes_then_opens(other: Seq<char>, target: Seq<char>)
    requires
        other != target,
    ensures
        switch_action_for(Some(other), target) == SwitchAction::CloseActive,
        switch_action_for(None, target) == SwitchAction::OpenTarget,
        switch_action_for(Some(target), target) == SwitchAction::Finished,
{
}

/// The active store after the next step of a switch to `target` succeeds.
pub open spec fn active_after_step(active: Option<Seq<char>>, target: Seq<char>) -> Option<
    Seq<char>,
> {
    match switch_action_for(active, target) {
        SwitchAction::Finished => active,
        SwitchAction::CloseActive => None,
        SwitchAction::OpenTarget => Some(target),
    }
}

/// Whatever is open, a switch to a valid store whose steps succeed ends with
/// that store active after at most two steps (close, open); switching to it
/// again then takes nothing, neither closing nor reopening it.
pub proof fn law_switch_ends_on_target(previous: Option<Seq<char>>, target: Seq<char>)
    requires
        store_name_ok(target),
    ensures
        active_after_step(active_after_step(previous, target), target) == Some(target),
        switch_action_for(active_after_step(active_after_step(previous, target), target), target)
            == SwitchAction::Finished,
        switch_step_for(active_after_step(active_after_step(previous, target), target), target)
            == SwitchStep::Stay,
{
}

/// Whether the store `name` may be deleted while `active` is open: any
/// store but the active one.
pub open spec fn may_delete(active: Option<Seq<char>>, name: Seq<char>) -> bool {
    active != Some(name)
}

/// Switching is idempotent and never strands the open store: once a store
/// is active, switching to it again takes nothing and it cannot be deleted,
/// while any other valid store can be switched to (by reopening) and
/// deleted; with no store open, every valid store can be deleted.
pub proof fn law_active_store_is_pinned(active: Seq<char>, other: Seq<char>)
    requires
        store_name_ok(active),
        store_name_ok(other),
        active != other,
    ensures
        switch_step_for(Some(active), active) == SwitchStep::Stay,
        !may_delete(Some(active), active),
        switch_step_for(Some(active), other) == SwitchStep::Reopen,
        may_delete(Some(active), other),
        may_delete(None, active),
        switch_step_for(None, active) == SwitchStep::Reopen,
{
}

/// A valid store name gives a plain file name inside the base directory:
/// `<name>.db` holds no path separator (`/` or `\\`) and does not start
/// with a dot, so joining it to the base directory cannot leave it.
pub proof fn law_store_file_stays_in_base(name: Seq<char>)
    requires
        store_name_ok(name),
    ensures
        forall|i: int|
            0 <= i < (name + ".db"@).len() ==> #[trigger] (name + ".db"@)[i] != '/' && (name
                + ".db"@)[i] != '\\',
        (name + ".db"@)[0] != '.',
{
    reveal_strlit(".db");
    let f = name + ".db"@;
    assert forall|i: int| 0 <= i < f.len() implies #[trigger] f[i] != '/' && f[i] != '\\' by {
        if i < name.len() {
            assert(f[i] == name[i]);
            if i > 0 {
                assert(is_name_char(name[i]));
            }
        }
    }
    assert(f[0] == name[0]);
}

impl<C> StoreSelection<C> {
    pub closed spec fn active_view(&self) -> Option<Seq<char>> {
        match self.active {
            Some((s, _)) => Some(s@),
            None => None,
        }
    }

    /// The connection of the active store, if one is open.
    pub closed spec fn connection(&self) -> Option<C> {
        match self.active {
            Some((_, c)) => Some(c),
            None => None,
        }
    }

    /// No store open.
    pub fn new() -> (r: StoreSelection<C>)
        ensures
            r.active_view() is None,
            r.connection() is None,
    {
        StoreSelection { active: None }
    }

    /// A connection is held exactly when a store is active, in every state.
    pub proof fn law_connection_iff_active(&self)
        ensures
            self.connection() is Some <==> self.active_view() is Some,
    {
    }

    /// The name of the active store, if one is open.
    pub fn active_name(&self) -> (r: Option<&str>)
        ensures
            match r {
                Some(s) => self.active_view() == Some(s@),
                None => self.active_view() is None,
            },
    {
        match &self.active {
            Some((s, _)) => Some(s.as_str()),
            None => None,
        }
    }

    /// The active store's connection; `Disconnected` when no store is open.
    pub fn db(&self) -> (r: Result<&C, MemoryError>)
        ensures
            r is Ok <==> self.active_view() is Some,
            r matches Ok(c) ==> self.connection() == Some(*c),
            r is Err ==> r matches Err(MemoryError::Disconnected),
    {
        match &self.active {
            Some((_, c)) => Ok(c),
            None => Err(MemoryError::Disconnected),
        }
    }

    /// Whether `name` is the active store.
    pub fn is_active(&self, name: &str) -> (r: bool)
        ensures
            r == (self.active_view() == Some(name@)),
    {
        match &self.active {
            Some((s, _)) => str_eq(s.as_str(), name),
            None => false,
        }
    }

    /// Records that the named store was opened on `conn` and is now active.
    pub fn opened(&mut self, name: &str, conn: C)
        ensures
            final(self).active_view() == Some(name@),
            final(self).connection() == Some(conn),
    {
        self.active = Some((String::from_str(name), conn));
    }

    /// Records that the active store was closed, handing back its connection.
    pub fn closed(&mut self) -> (r: Option<C>)
        ensures
            final(self).active_view() is None,
            final(self).connection() is None,
            r == old(self).connection(),
    {
        match self.active.take() {
            Some((_, c)) => Some(c),
            None => None,
        }
    }

    /// The next step of switching to `target`.
    pub fn next_switch_action(&self, target: &str) -> (r: SwitchAction)
        ensures
            r == switch_action_for(self.active_view(), target@),
    {
        if self.is_active(target) {
            SwitchAction::Finished
        } else {
            match &self.active {
                Some(_) => SwitchAction::CloseActive,
                None => SwitchAction::OpenTarget,
            }
        }
    }

    /// What switching to `name` takes: an invalid name is rejected, the
    /// active store needs nothing, any other store is (re)opened.
    pub fn plan_switch(&self, name: &str) -> (r: Result<SwitchStep, MemoryError>)
        ensures
            !store_name_ok(name@) ==> (r matches Err(MemoryError::InvalidName(s)) && s@ == name@),
            store_name_ok(name@) ==> r == Ok::<SwitchStep, MemoryError>(
                switch_step_for(self.active_view(), name@),
            ),
    {
        match validate_name(name) {
            Err(e) => Err(e),
            Ok(()) => {
                if self.is_active(name) {
                    Ok(SwitchStep::Stay)
                } else {
                    Ok(SwitchStep::Reopen)
                }
            },
        }
    }

    /// The checks made before deleting a store file: the name must be valid
    /// and must not be the active store.
    pub fn check_delete(&self, name: &str) -> (r: Result<(), MemoryError>)
        ensures
            !store_name_ok(name@) ==> rejects_name(r, name@),
            store_name_ok(name@) && !may_delete(self.active_view(), name@) ==> (r matches Err(
                MemoryError::ActiveStoreDeletion(s),
            ) && s@ == name@),
            store_name_ok(name@) && may_delete(self.active_view(), name@) ==> r is Ok,
    {
        validate_name(name)?;
        if self.is_active(name) {
            return Err(MemoryError::ActiveStoreDeletion(String::from_str(name)));
        }
        Ok(())
    }
}

/// Whether a failed file removal is worth retrying: the file may be held
/// open by another process (permission denied, or Windows error 32).
pub fn should_retry_remove(permission_denied: bool, raw_os_error: Option<i32>) -> (r: bool)
    ensures
        r == (permission_denied || raw_os_error == Some(32i32)),
{
    permission_denied || match raw_os_error {
        Some(code) => code == 32,
        None => false,
    }
}

/// Most attempts made at removing a store's database file.
pub const MAX_REMOVE_ATTEMPTS: u32 = 3;

/// How one attempt at removing a file ended.
#[derive(Debug, Clone, Copy, PartialEq, Eq)]
pub enum RemoveOutcome {
    Removed,
    /// The removal failed: whether with permission denied, and the OS error code.
    Failed { permission_denied: bool, raw_os_error: Option<i32> },
}

/// What the removal loop does next.
#[derive(Debug, Clone, Copy, PartialEq, Eq)]
pub enum RemoveStep {
    /// The file is gone.
    Done,
    /// Pause briefly, then try again.
    PauseAndRetry,
    /// Report the last failure.
    GiveUp,
}

/// The step after attempt number `attempt` (counted from 1) ended with
/// `outcome`: success ends the loop; a failure worth retrying is retried
/// until `MAX_REMOVE_ATTEMPTS` attempts were made; any other failure is
/// reported at once.
pub open spec fn remove_step_for(attempt: u32, outcome: RemoveOutcome) -> RemoveStep {
    match outcome {
        RemoveOutcome::Removed => RemoveStep::Done,
        RemoveOutcome::Failed { permission_denied, raw_os_error } => if (permission_denied
            || raw_os_error == Some(32i32)) && attempt < MAX_REMOVE_ATTEMPTS {
            RemoveStep::PauseAndRetry
        } else {
            RemoveStep::GiveUp
        },
    }
}

/// Decides the next step of the removal loop.
pub fn next_remove_step(attempt: u32, outcome: RemoveOutcome) -> (r: RemoveStep)
    ensures
        r == remove_step_for(attempt, outcome),
{
    match outcome {
        RemoveOutcome::Removed => RemoveStep::Done,
        RemoveOutcome::Failed { permission_denied, raw_os_error } => {
            if should_retry_remove(permission_denied, raw_os_error) && attempt
                < MAX_REMOVE_ATTEMPTS {
                RemoveStep::PauseAndRetry
            } else {
                RemoveStep::GiveUp
            }
        },
    }
}

/// The removal loop is bounded: from attempt `MAX_REMOVE_ATTEMPTS` on, it
/// never retries, whatever the failure.
pub proof fn law_removal_attempts_bounded(attempt: u32, outcome: RemoveOutcome)
    requires
        attempt >= MAX_REMOVE_ATTEMPTS,
    ensures
        remove_step_for(attempt, outcome) != RemoveStep::PauseAndRetry,
{
}

// --- listing stores ---

/// What listing reads of one directory entry: its UTF-8 file name, whether
/// it is a symbolic link or a regular file, its size, and the sizes of the
/// `<file name>-wal` and `<file name>-shm` files beside it, where they exist.
#[derive(Debug, Clone)]
pub struct StoreFileEntry {
    pub file_name: String,
    pub is_symlink: bool,
    pub is_file: bool,
    pub len: u64,
    pub wal_len: Option<u64>,
    pub shm_len: Option<u64>,
}

/// The store name of a database file name: the file stem when the extension
/// is exactly `db` (a bare `.db` has no extension), else `None`.
pub open spec fn db_stem(f: Seq<char>) -> Option<Seq<char>> {
    if f.len() > 3 && f.subrange(f.len() - 3, f.len() as int) == ".db"@ {
        Some(f.take(f.len() - 3))
    } else {
        None
    }
}

pub open spec fn sat_add(a: nat, b: nat) -> nat {
    if a + b > u64::MAX {
        u64::MAX as nat
    } else {
        a + b
    }
}

pub open spec fn opt_len(o: Option<u64>) -> nat {
    match o {
        Some(x) => x as nat,
        None => 0,
    }
}

/// The listed size of a store: its database file plus WAL and shared-memory
/// files, saturating at `u64::MAX`.
pub open spec fn entry_size(e: StoreFileEntry) -> nat {
    sat_add(sat_add(e.len as nat, opt_len(e.wal_len)), opt_len(e.shm_len))
}

/// An entry is listed when it is a regular file (not a symbolic link) whose
/// extension is `db`.
pub open spec fn entry_listed(e: StoreFileEntry) -> bool {
    !e.is_symlink && e.is_file && db_stem(e.file_name@) is Some
}

/// (name, size) of each listed entry, in directory order.
pub open spec fn listed_stores(es: Seq<StoreFileEntry>) -> Seq<(Seq<char>, u64)>
    decreases es.len(),
{
    if es.len() == 0 {
        seq![]
    } else {
        let prev = listed_stores(es.drop_last());
        let e = es.last();
        if entry_listed(e) {
            prev.push((db_stem(e.file_name@)->0, entry_size(e) as u64))
        } else {
            prev
        }
    }
}

pub open spec fn info_view(i: StoreInfo) -> (Seq<char>, u64) {
    (i.name@, i.size_bytes)
}

pub open spec fn infos_view(s: Seq<StoreInfo>) -> Seq<(Seq<char>, u64)> {
    s.map_values(|i: StoreInfo| info_view(i))
}

/// Byte-wise lexicographic order (the order of Rust strings): `a` is a prefix
/// of `b`, or `a` is smaller at the first byte where they differ.
pub open spec fn lex_le(a: Seq<u8>, b: Seq<u8>) -> bool {
    exists|k: int| #[trigger] lex_le_at(a, b, k)
}

/// `a` and `b` agree before index `k`, where `a` ends or is smaller.
pub open spec fn lex_le_at(a: Seq<u8>, b: Seq<u8>, k: int) -> bool {
    0 <= k <= a.len() && k <= b.len() && (forall|j: int| 0 <= j < k ==> a[j] == b[j]) && (k
        == a.len() || (k < b.len() && a[k] < b[k]))
}

pub open spec fn name_le(a: Seq<char>, b: Seq<char>) -> bool {
    lex_le(vstd::utf8::encode_utf8(a), vstd::utf8::encode_utf8(b))
}

proof fn lemma_lex_total_from(a: Seq<u8>, b: Seq<u8>, k: int)
    requires
        0 <= k <= a.len(),
        k <= b.len(),
        forall|j: int| 0 <= j < k ==> a[j] == b[j],
    ensures
        lex_le(a, b) || lex_le(b, a),
    decreases a.len() - k,
{
    if k == a.len() {
        assert(lex_le_at(a, b, k));
    } else if k == b.len() {
        assert(forall|j: int| 0 <= j < k ==> b[j] == a[j]);
        assert(lex_le_at(b, a, k));
    } else if a[k] < b[k] {
        assert(lex_le_at(a, b, k));
    } else if a[k] > b[k] {
        assert(forall|j: int| 0 <= j < k ==> b[j] == a[j]);
        assert(lex_le_at(b, a, k));
    } else {
        lemma_lex_total_from(a, b, k + 1);
    }
}

proof fn lemma_lex_total(a: Seq<u8>, b: Seq<u8>)
    ensures
        lex_le(a, b) || lex_le(b, a),
{
    lemma_lex_total_from(a, b, 0);
}

fn names_le(a: &str, b: &str) -> (r: bool)
    ensures
        r == name_le(a@, b@),
{
    let x = a.as_bytes();
    let y = b.as_bytes();
    let ghost ab = vstd::utf8::encode_utf8(a@);
    let ghost bb = vstd::utf8::encode_utf8(b@);
    let mut k: usize = 0;
    while k < x.len() && k < y.len() && x[k] == y[k]
        invariant
            x@ == ab,
            y@ == bb,
            k <= x@.len(),
            k <= y@.len(),
            forall|j: int| 0 <= j < k ==> x@[j] == y@[j],
        decreases x@.len() - k,
    {
        k = k + 1;
    }
    if k == x.len() || (k < y.len() && x[k] < y[k]) {
        assert(lex_le_at(ab, bb, k as int));
        true
    } else {
        proof {
            assert forall|w: int| #[trigger] lex_le_at(ab, bb, w) implies false by {
                if w > k {
                    assert(ab[k as int] == bb[k as int]);
                }
            }
        }
        false
    }
}

/// Adjacent names in ascending byte order.
pub open spec fn sorted_by_name(s: Seq<StoreInfo>) -> bool {
    forall|i: int| 0 <= i < s.len() - 1 ==> name_le(s[i].name@, #[trigger] s[i + 1].name@)
}

proof fn lemma_insert_sorted(old: Seq<StoreInfo>, p: int, x: StoreInfo)
    requires
        0 <= p <= old.len(),
        sorted_by_name(old),
        p > 0 ==> name_le(old[p - 1].name@, x.name@),
        p < old.len() ==> name_le(x.name@, old[p].name@),
    ensures
        sorted_by_name(old.insert(p, x)),
{
    let n = old.insert(p, x);
    assert forall|a: int| 0 <= a < n.len() - 1 implies name_le(n[a].name@, #[trigger] n[a
        + 1].name@) by {
        if a + 1 < p {
            assert(n[a] == old[a] && n[a + 1] == old[a + 1]);
        } else if a + 1 == p {
            assert(n[a] == old[p - 1] && n[a + 1] == x);
        } else if a == p {
            assert(n[a] == x && n[a + 1] == old[p]);
        } else {
            assert(n[a] == old[a - 1] && n[a + 1] == old[a]);
            let b = a - 1;
            assert(name_le(old[b].name@, old[b + 1].name@));
        }
    }
}

/// The stores of a directory listing: the database files among the entries,
/// each with its store name and size, in ascending byte order of the name.
pub fn collect_store_infos(entries: &Vec<StoreFileEntry>) -> (r: Vec<StoreInfo>)
    ensures
        infos_view(r@).to_multiset() == listed_stores(
            entries@,
        ).to_multiset(),
        sorted_by_name(r@),
{
    broadcast use vstd::seq_lib::group_to_multiset_ensures;

    // the listed entries, in directory order
    let mut found: Vec<StoreInfo> = Vec::new();
    let mut i: usize = 0;
    assert(entries@.take(0) =~= Seq::<StoreFileEntry>::empty());
    while i < entries.len()
        invariant
            i <= entries@.len(),
            infos_view(found@) == listed_stores(entries@.take(i as int)),
        decreases entries@.len() - i,
    {
        let e = &entries[i];
        assert(entries@.take(i + 1).drop_last() =~= entries@.take(i as int));
        let cs = chars_of(e.file_name.as_str());
        let n = cs.len();
        let ghost f = e.file_name@;
        if !e.is_symlink && e.is_file && n > 3 && cs[n - 3] == '.' && cs[n - 2] == 'd' && cs[n
            - 1] == 'b' {
            proof {
                reveal_strlit(".db");
                assert(f.subrange(f.len() - 3, f.len() as int) =~= ".db"@);
            }
            let mut stem: Vec<char> = Vec::new();
            let mut k: usize = 0;
            while k < n - 3
                invariant
                    n == cs@.len(),
                    n > 3,
                    k <= n - 3,
                    stem@ == cs@.take(k as int),
                decreases n - 3 - k,
            {
                stem.push(cs[k]);
                assert(cs@.take(k + 1) =~= cs@.take(k as int).push(cs@[k as int]));
                k = k + 1;
            }
            let w = match e.wal_len {
                Some(x) => x,
                None => 0,
            };
            let sh = match e.shm_len {
                Some(x) => x,
                None => 0,
            };
            let size = e.len.saturating_add(w).saturating_add(sh);
            let ghost old_found = found@;
            found.push(StoreInfo { name: string_from_chars(&stem), size_bytes: size });
            assert(infos_view(found@) =~= infos_view(old_found).push(
                info_view(found@[found@.len() - 1]),
            ));
        } else {
            proof {
                if entry_listed(*e) {
                    reveal_strlit(".db");
                    assert(f.subrange(f.len() - 3, f.len() as int)[0] == '.');
                    assert(f.subrange(f.len() - 3, f.len() as int)[1] == 'd');
                    assert(f.subrange(f.len() - 3, f.len() as int)[2] == 'b');
                }
            }
        }
        i = i + 1;
    }
    assert(entries@.take(entries@.len() as int) =~= entries@);
    // insertion sort by name
    let mut out: Vec<StoreInfo> = Vec::new();
    let mut j: usize = 0;
    assert(found@.take(0) =~= Seq::<StoreInfo>::empty());
    while j < found.len()
        invariant
            j <= found@.len(),
            infos_view(out@).to_multiset() == infos_view(found@.take(j as int)).to_multiset(),
            sorted_by_name(out@),
        decreases found@.len() - j,
    {
        let x = StoreInfo { name: found[j].name.clone(), size_bytes: found[j].size_bytes };
        let mut p: usize = 0;
        while p < out.len() && names_le(out[p].name.as_str(), x.name.as_str())
            invariant
                p <= out@.len(),
                p > 0 ==> name_le(out@[p - 1].name@, x.name@),
            decreases out@.len() - p,
        {
            p = p + 1;
        }
        proof {
            if p < out@.len() {
                lemma_lex_total(
                    vstd::utf8::encode_utf8(out@[p as int].name@),
                    vstd::utf8::encode_utf8(x.name@),
                );
            }
            lemma_insert_sorted(out@, p as int, x);
        }
        let ghost old_out = out@;
        out.insert(p, x);
        proof {
            let v = infos_view(out@);
            v.to_multiset_ensures();
            assert(v.len() == out@.len());
            assert(out@.remove(p as int) =~= old_out);
            assert(v.remove(p as int) =~= infos_view(old_out));
            assert(v[p as int] == info_view(x));
            assert(v.remove(p as int).to_multiset() =~= v.to_multiset().remove(v[p as int]));
            assert(v.contains(info_view(x)));
            assert(v.to_multiset().count(info_view(x)) > 0);
            assert(infos_view(found@.take(j + 1)) =~= infos_view(found@.take(j as int)).push(
                info_view(x),
            ));
            assert(v.to_multiset() =~= infos_view(old_out).to_multiset().insert(info_view(x)));
            infos_view(found@.take(j as int)).to_multiset_ensures();
        }
        j = j + 1;
    }
    assert(found@.take(found@.len() as int) =~= found@);
    out
}

} // verus!
