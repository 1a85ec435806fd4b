//! The global capture shortcut, kept as a GNOME custom keybinding.
//!
//! A .deb can't touch per-user dconf, and on Wayland apps can't grab global
//! hotkeys themselves, so the app registers (and keeps up to date) its own
//! GNOME shortcut that runs `<this binary> capture`. This module decides what
//! to write; the app reads and writes the settings.
use vstd::prelude::*;
use vstd::string::*;
use crate::text::same_text;

verus! {

pub const MEDIA_KEYS_SCHEMA: &'static str = "org.gnome.settings-daemon.plugins.media-keys";

pub const KEYBINDING_SCHEMA: &'static str =
    "org.gnome.settings-daemon.plugins.media-keys.custom-keybinding";

/// Where our own custom keybinding lives.
pub const KEYBINDING_PATH: &'static str =
    "/org/gnome/settings-daemon/plugins/media-keys/custom-keybindings/doo-capture/";

/// The key combination: Super+T.
pub const BINDING: &'static str = "<Super>t";

/// The name under which the shortcut shows in GNOME's settings.
pub const SHORTCUT_NAME: &'static str = "doo quick capture";

/// The command the shortcut runs when the running binary's path is unknown.
pub const FALLBACK_COMMAND: &'static str = "doo capture";

/// The command that the shortcut runs: the running binary with the
/// `capture` argument.
pub open spec fn command_for(exe: Option<Seq<char>>) -> Seq<char> {
    match exe {
        Some(path) => path + " capture"@,
        None => FALLBACK_COMMAND@,
    }
}

/// The shortcut always asks for the capture popup: its command is the
/// running binary's path (or `doo`, when unknown) followed by a space and
/// `capture`.
pub proof fn shortcut_runs_capture(exe: Option<Seq<char>>)
    ensures
        ({
            let c = command_for(exe);
            let program = match exe {
                Some(path) => path,
                None => "doo"@,
            };
            c == program + " capture"@
        }),
{
    reveal_strlit("doo capture");
    reveal_strlit("doo");
    reveal_strlit(" capture");
    assert("doo capture"@ =~= "doo"@ + " capture"@);
}

/// The command for the shortcut, given the path of the running binary if it
/// is known.
pub fn shortcut_command(exe: Option<&str>) -> (command: String)
    ensures
        command@ == command_for(
            match exe {
                Some(path) => Some(path@),
                None => None,
            },
        ),
{
    match exe {
        Some(path) => String::from_str(path).concat(" capture"),
        None => String::from_str(FALLBACK_COMMAND),
    }
}

/// What registering the shortcut comes to.
pub enum Registration {
    /// Our keybinding is not listed and the custom shortcut at this position
    /// of the list already uses the key combination: don't steal it, change
    /// nothing.
    Conflict { index: usize },
    /// Write the new list of custom keybindings, when there is one, and
    /// (re)write our entry's name, command and binding when `write_entry`.
    Apply { listing: Option<Vec<String>>, write_entry: bool },
}

/// A registration as a mathematical value.
pub enum RegistrationPlan {
    Conflict { index: nat },
    Apply { listing: Option<Seq<Seq<char>>>, write_entry: bool },
}

/// The texts of a list of strings.
pub open spec fn texts(v: Seq<String>) -> Seq<Seq<char>> {
    v.map_values(|s: String| s@)
}

impl View for Registration {
    type V = RegistrationPlan;

    open spec fn view(&self) -> RegistrationPlan {
        match self {
            Registration::Conflict { index } => RegistrationPlan::Conflict { index: *index as nat },
            Registration::Apply { listing, write_entry } => RegistrationPlan::Apply {
                listing: match listing {
                    Some(v) => Some(texts(v@)),
                    None => None,
                },
                write_entry: *write_entry,
            },
        }
    }
}

/// Whether our keybinding is among the listed custom keybindings (each given
/// as its path and its binding).
pub open spec fn listed(shortcuts: Seq<(Seq<char>, Seq<char>)>) -> bool {
    exists|i: int| 0 <= i < shortcuts.len() && #[trigger] shortcuts[i].0 == KEYBINDING_PATH@
}

/// Whether our keybinding's path is among the listed custom keybinding
/// paths. Only when it is not do the other shortcuts' bindings matter.
pub fn is_listed(paths: &Vec<String>) -> (found: bool)
    ensures
        found == exists|i: int| 0 <= i < paths@.len() && #[trigger] paths@[i]@ == KEYBINDING_PATH@,
{
    let ours = String::from_str(KEYBINDING_PATH);
    let mut i: usize = 0;
    while i < paths.len()
        invariant
            i <= paths.len(),
            ours@ == KEYBINDING_PATH@,
            forall|j: int| 0 <= j < i ==> #[trigger] paths@[j]@ != KEYBINDING_PATH@,
        decreases paths.len() - i,
    {
        if paths[i] == ours {
            return true;
        }
        i = i + 1;
    }
    false
}

/// The first position, from `start` on, of a custom shortcut that uses our
/// key combination.
pub open spec fn conflict_from(shortcuts: Seq<(Seq<char>, Seq<char>)>, start: nat) -> Option<nat>
    decreases shortcuts.len() - start,
{
    if start >= shortcuts.len() {
        None
    } else if shortcuts[start as int].1 == BINDING@ {
        Some(start)
    } else {
        conflict_from(shortcuts, start + 1)
    }
}

/// The paths of the listed custom shortcuts.
pub open spec fn paths_of(shortcuts: Seq<(Seq<char>, Seq<char>)>) -> Seq<Seq<char>> {
    shortcuts.map_values(|e: (Seq<char>, Seq<char>)| e.0)
}

/// The registration for the listed custom shortcuts, the command our entry
/// holds now, and the command it should hold.
pub open spec fn plan_of(
    shortcuts: Seq<(Seq<char>, Seq<char>)>,
    current: Seq<char>,
    command: Seq<char>,
) -> RegistrationPlan {
    if listed(shortcuts) {
        RegistrationPlan::Apply { listing: None, write_entry: current != command }
    } else {
        match conflict_from(shortcuts, 0) {
            Some(i) => RegistrationPlan::Conflict { index: i },
            None => RegistrationPlan::Apply {
                listing: Some(paths_of(shortcuts).push(KEYBINDING_PATH@)),
                write_entry: current != command,
            },
        }
    }
}

/// The listed custom shortcuts as mathematical values.
pub open spec fn shortcut_texts(v: Seq<(String, String)>) -> Seq<(Seq<char>, Seq<char>)> {
    v.map_values(|e: (String, String)| (e.0@, e.1@))
}

proof fn lemma_conflict_from_skip(shortcuts: Seq<(Seq<char>, Seq<char>)>, k: nat)
    requires
        k < shortcuts.len(),
        shortcuts[k as int].1 != BINDING@,
    ensures
        conflict_from(shortcuts, k) == conflict_from(shortcuts, k + 1),
{
}

/// Decides how to register the shortcut, given the listed custom shortcuts
/// (each as its path and its binding), the command our entry holds now
/// (empty when it has none) and the command it should hold. Idempotent.
pub fn plan_registration(
    shortcuts: &Vec<(String, String)>,
    current_command: &str,
    command: &str,
) -> (plan: Registration)
    ensures
        plan@ == plan_of(shortcut_texts(shortcuts@), current_command@, command@),
{
    let ghost entries = shortcut_texts(shortcuts@);
    let ours = String::from_str(KEYBINDING_PATH);
    let write_entry = !same_text(current_command, command);
    let mut found = false;
    let mut i: usize = 0;
    while i < shortcuts.len()
        invariant
            i <= shortcuts.len(),
            entries == shortcut_texts(shortcuts@),
            ours@ == KEYBINDING_PATH@,
            found == exists|j: int| 0 <= j < i && #[trigger] entries[j].0 == KEYBINDING_PATH@,
        decreases shortcuts.len() - i,
    {
        if shortcuts[i].0 == ours {
            found = true;
        }
        assert(entries[i as int].0 == shortcuts@[i as int].0@);
        i = i + 1;
    }
    if found {
        return Registration::Apply { listing: None, write_entry };
    }
    assert(!listed(entries));
    let binding = String::from_str(BINDING);
    let mut k: usize = 0;
    while k < shortcuts.len()
        invariant
            k <= shortcuts.len(),
            entries == shortcut_texts(shortcuts@),
            binding@ == BINDING@,
            !listed(entries),
            conflict_from(entries, 0) == conflict_from(entries, k as nat),
        decreases shortcuts.len() - k,
    {
        assert(entries[k as int].1 == shortcuts@[k as int].1@);
        if shortcuts[k].1 == binding {
            return Registration::Conflict { index: k };
        }
        proof {
            lemma_conflict_from_skip(entries, k as nat);
        }
        k = k + 1;
    }
    let mut listing: Vec<String> = Vec::new();
    let mut m: usize = 0;
    while m < shortcuts.len()
        invariant
            m <= shortcuts.len(),
            entries == shortcut_texts(shortcuts@),
            !listed(entries),
            conflict_from(entries, 0) is None,
            listing@.len() == m,
            entries.len() == shortcuts@.len(),
            texts(listing@) =~= paths_of(entries).take(m as int),
        decreases shortcuts.len() - m,
    {
        let path = shortcuts[m].0.clone();
        assert(path@ == entries[m as int].0);
        let ghost before = listing@;
        listing.push(path);
        assert forall|j: int| 0 <= j < m + 1 implies #[trigger] texts(listing@)[j] == paths_of(
            entries,
        ).take(m as int + 1)[j] by {
            if j < m {
                assert(listing@[j] == before[j]);
                assert(texts(before)[j] == paths_of(entries).take(m as int)[j]);
            }
        }
        assert(texts(listing@) =~= paths_of(entries).take(m as int + 1));
        m = m + 1;
    }
    listing.push(ours);
    assert(paths_of(entries).take(shortcuts.len() as int) =~= paths_of(entries));
    assert(texts(listing@) =~= paths_of(entries).push(KEYBINDING_PATH@));
    Registration::Apply { listing: Some(listing), write_entry }
}

/// The listed custom shortcuts once a plan is applied: our path appended when
/// the plan lists it anew, with whatever binding our entry then has.
pub open spec fn shortcuts_after(
    shortcuts: Seq<(Seq<char>, Seq<char>)>,
    plan: RegistrationPlan,
    our_binding: Seq<char>,
) -> Seq<(Seq<char>, Seq<char>)> {
    match plan {
        RegistrationPlan::Apply { listing: Some(_), .. } => shortcuts.push(
            (KEYBINDING_PATH@, our_binding),
        ),
        _ => shortcuts,
    }
}

/// The command our entry holds once a plan is applied.
pub open spec fn command_after(plan: RegistrationPlan, current: Seq<char>, command: Seq<char>) -> Seq<
    char,
> {
    match plan {
        RegistrationPlan::Apply { write_entry: true, .. } => command,
        _ => current,
    }
}

/// Registration is idempotent: once a registration has been applied,
/// registering again with the same command neither lists nor writes
/// anything; and when it backed off for a conflict, it backs off again.
pub proof fn registration_is_idempotent(
    shortcuts: Seq<(Seq<char>, Seq<char>)>,
    current: Seq<char>,
    command: Seq<char>,
    our_binding: Seq<char>,
)
    ensures
        ({
            let plan = plan_of(shortcuts, current, command);
            let again = plan_of(
                shortcuts_after(shortcuts, plan, our_binding),
                command_after(plan, current, command),
                command,
            );
            match plan {
                RegistrationPlan::Apply { .. } => again == RegistrationPlan::Apply {
                    listing: None,
                    write_entry: false,
                },
                RegistrationPlan::Conflict { .. } => again == plan,
            }
        }),
{
    let plan = plan_of(shortcuts, current, command);
    match plan {
        RegistrationPlan::Apply { listing, .. } => {
            match listing {
                Some(_) => {
                    let after = shortcuts.push((KEYBINDING_PATH@, our_binding));
                    assert(after[shortcuts.len() as int].0 == KEYBINDING_PATH@);
                    assert(listed(after));
                },
                None => {},
            }
        },
        RegistrationPlan::Conflict { .. } => {},
    }
}

/// The shortcut is never stolen: a registration lists our keybinding anew
/// only when no listed custom shortcut uses the key combination.
pub proof fn registration_never_steals(
    shortcuts: Seq<(Seq<char>, Seq<char>)>,
    current: Seq<char>,
    command: Seq<char>,
)
    ensures
        plan_of(shortcuts, current, command) matches RegistrationPlan::Apply {
            listing: Some(_),
            ..
        } ==> forall|i: int| 0 <= i < shortcuts.len() ==> #[trigger] shortcuts[i].1 != BINDING@,
{
    if plan_of(shortcuts, current, command) matches RegistrationPlan::Apply { listing: Some(_), .. } {
        assert forall|i: int| 0 <= i < shortcuts.len() implies #[trigger] shortcuts[i].1
            != BINDING@ by {
            lemma_no_conflict(shortcuts, 0, i);
        }
    }
}

/// What a registration does to the list of custom keybindings: it lists our
/// keybinding anew only when it is not listed, and then the new list is
/// every listed path, in order, followed by ours (nothing is dropped); it
/// backs off only for a shortcut that really uses the key combination while
/// ours is not listed; and it (re)writes our entry exactly when its command
/// differs.
pub proof fn registration_keeps_every_shortcut(
    shortcuts: Seq<(Seq<char>, Seq<char>)>,
    current: Seq<char>,
    command: Seq<char>,
)
    ensures
        plan_of(shortcuts, current, command) matches RegistrationPlan::Apply {
            listing: Some(list),
            ..
        } ==> {
            &&& !listed(shortcuts)
            &&& list.len() == shortcuts.len() + 1
            &&& forall|i: int| 0 <= i < shortcuts.len() ==> #[trigger] list[i] == shortcuts[i].0
            &&& list[shortcuts.len() as int] == KEYBINDING_PATH@
        },
        plan_of(shortcuts, current, command) matches RegistrationPlan::Apply { listing: None, .. }
            ==> listed(shortcuts),
        plan_of(shortcuts, current, command) matches RegistrationPlan::Apply { write_entry, .. }
            ==> write_entry == (current != command),
        plan_of(shortcuts, current, command) matches RegistrationPlan::Conflict { index } ==> {
            &&& !listed(shortcuts)
            &&& index < shortcuts.len()
            &&& shortcuts[index as int].1 == BINDING@
            &&& forall|j: int| 0 <= j < index ==> #[trigger] shortcuts[j].1 != BINDING@
        },
{
    lemma_conflict_in_range(shortcuts, 0);
}

proof fn lemma_conflict_in_range(shortcuts: Seq<(Seq<char>, Seq<char>)>, start: nat)
    ensures
        conflict_from(shortcuts, start) matches Some(i) ==> start <= i < shortcuts.len()
            && shortcuts[i as int].1 == BINDING@ && forall|j: int|
            start <= j < i ==> #[trigger] shortcuts[j].1 != BINDING@,
    decreases shortcuts.len() - start,
{
    if start < shortcuts.len() && shortcuts[start as int].1 != BINDING@ {
        lemma_conflict_in_range(shortcuts, start + 1);
    }
}

/// Once our keybinding is listed, the other shortcuts' bindings do not
/// matter: two lists with the same paths give the same registration.
pub proof fn bindings_do_not_matter_once_listed(
    shortcuts: Seq<(Seq<char>, Seq<char>)>,
    others: Seq<(Seq<char>, Seq<char>)>,
    current: Seq<char>,
    command: Seq<char>,
)
    requires
        shortcuts.len() == others.len(),
        forall|i: int| 0 <= i < shortcuts.len() ==> #[trigger] shortcuts[i].0 == others[i].0,
        listed(shortcuts),
    ensures
        plan_of(shortcuts, current, command) == plan_of(others, current, command),
{
    let i = choose|i: int| 0 <= i < shortcuts.len() && #[trigger] shortcuts[i].0 == KEYBINDING_PATH@;
    assert(others[i].0 == KEYBINDING_PATH@);
}

proof fn lemma_no_conflict(shortcuts: Seq<(Seq<char>, Seq<char>)>, start: nat, i: int)
    requires
        conflict_from(shortcuts, start) is None,
        start <= i < shortcuts.len(),
    ensures
        shortcuts[i].1 != BINDING@,
    decreases shortcuts.len() - start,
{
    if start < i {
        lemma_no_conflict(shortcuts, start + 1, i);
    }
}

} // verus!
