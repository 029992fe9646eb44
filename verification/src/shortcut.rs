//! The taskbar shortcut: the installed application a desktop-entry shortcut
//! stands for, what it shows and what a click launches.
use vstd::prelude::*;

verus! {

/// What the shortcut reads of an installed application.
#[derive(Clone, Debug)]
pub struct DesktopApp {
    /// The desktop-entry identifier, when the application has one.
    pub id: Option<String>,
    pub name: String,
    pub executable: String,
}

/// The identifier an application is matched by: its desktop-entry
/// identifier, or the empty text when it has none.
pub open spec fn id_or_empty(id: Option<String>) -> Seq<char> {
    match id {
        Some(i) => i@,
        None => Seq::empty(),
    }
}

/// Whether the application at `i` is the first one matched by `entry`.
pub open spec fn is_first_match(apps: Seq<DesktopApp>, entry: Seq<char>, i: int) -> bool {
    &&& 0 <= i < apps.len()
    &&& id_or_empty(apps[i].id) == entry
    &&& forall|j: int| 0 <= j < i ==> id_or_empty((#[trigger] apps[j]).id) != entry
}

/// No application is matched by `entry`.
pub open spec fn no_match(apps: Seq<DesktopApp>, entry: Seq<char>) -> bool {
    forall|j: int| 0 <= j < apps.len() ==> id_or_empty((#[trigger] apps[j]).id) != entry
}

/// The position of the first application whose identifier is `entry`.
pub fn find_desktop_entry(apps: &Vec<DesktopApp>, entry: &str) -> (r: Option<usize>)
    ensures
        match r {
            Some(i) => is_first_match(apps@, entry@, i as int),
            None => no_match(apps@, entry@),
        },
{
    let wanted: String = entry.to_owned();
    let empty: String = String::new();
    let mut i: usize = 0;
    while i < apps.len()
        invariant
            i <= apps@.len(),
            wanted@ == entry@,
            empty@ == Seq::<char>::empty(),
            forall|j: int| 0 <= j < i ==> id_or_empty((#[trigger] apps@[j]).id) != entry@,
        decreases apps@.len() - i,
    {
        let matched = match &apps[i].id {
            Some(id) => *id == wanted,
            None => empty == wanted,
        };
        if matched {
            return Some(i);
        }
        i = i + 1;
    }
    None
}

/// A shortcut: the name and executable of the application it found.
pub struct Shortcut {
    pub name: Option<String>,
    pub executable: Option<String>,
}

impl Shortcut {
    /// The shortcut for the desktop entry `desktop_entry` among the installed
    /// applications: the first application with that identifier, or none.
    pub fn init(apps: &Vec<DesktopApp>, desktop_entry: &str) -> (r: Shortcut)
        ensures
            r.name is None <==> no_match(apps@, desktop_entry@),
            r.name is None <==> r.executable is None,
            r.name is Some ==> exists|i: int|
                #![trigger apps@[i]]
                is_first_match(apps@, desktop_entry@, i) && r.name == Some(apps@[i].name)
                    && r.executable == Some(apps@[i].executable),
    {
        match find_desktop_entry(apps, desktop_entry) {
            Some(i) => {
                let app = &apps[i];
                Shortcut { name: Some(app.name.clone()), executable: Some(app.executable.clone()) }
            },
            None => Shortcut { name: None, executable: None },
        }
    }

    /// Whether the desktop entry was found.
    pub fn found(&self) -> (r: bool)
        ensures
            r == self.executable is Some,
    {
        self.executable.is_some()
    }

    /// The text of the shortcut: the application's name, or nothing.
    pub fn label(&self) -> (r: String)
        ensures
            r@ == (match self.name {
                Some(n) => n@,
                None => Seq::<char>::empty(),
            }),
    {
        match &self.name {
            Some(n) => n.clone(),
            None => String::new(),
        }
    }

    /// What a click launches: the application's executable, when one was found.
    pub fn click(&self) -> (r: Option<String>)
        ensures
            r == self.executable,
    {
        match &self.executable {
            Some(e) => Some(e.clone()),
            None => None,
        }
    }
}

} // verus!
