//! The roles a module's programs play, and the naming convention that ties
//! a module name and a role to an executable.

use vstd::prelude::*;

verus! {

/// The role of one of a module's programs.
#[derive(Clone, Debug)]
pub enum ModuleRole {
    Fetcher,
    Reader,
    Cataloger,
    Importer,
    Prompter,
    /// A role this tool does not know by name, kept as its suffix.
    Other(String),
}

/// The suffix that names `role` in program names.
pub open spec fn role_suffix(role: ModuleRole) -> Seq<char> {
    match role {
        ModuleRole::Fetcher => "fetcher"@,
        ModuleRole::Reader => "reader"@,
        ModuleRole::Cataloger => "cataloger"@,
        ModuleRole::Importer => "importer"@,
        ModuleRole::Prompter => "prompter"@,
        ModuleRole::Other(s) => s@,
    }
}

/// The index of the last `-` in `p` before position `end`, or -1.
pub open spec fn last_dash_before(p: Seq<char>, end: int) -> int
    decreases end,
{
    if end <= 0 || end > p.len() {
        -1
    } else if p[end - 1] == '-' {
        end - 1
    } else {
        last_dash_before(p, end - 1)
    }
}

/// The last `-`-separated segment of a program name.
pub open spec fn last_segment(p: Seq<char>) -> Seq<char> {
    p.subrange(last_dash_before(p, p.len() as int) + 1, p.len() as int)
}

/// Whether a module whose programs are `programs` provides `role`: one of
/// its program names ends in a segment equal to the role's suffix.
pub open spec fn provides_role(programs: Seq<Seq<char>>, role: ModuleRole) -> bool {
    exists|i: int| 0 <= i < programs.len() && last_segment(#[trigger] programs[i]) == role_suffix(role)
}

/// The executable of module `name` in the role with suffix `suffix`.
pub open spec fn program_name(name: Seq<char>, suffix: Seq<char>) -> Seq<char> {
    "asimov-"@ + name + "-"@ + suffix
}

proof fn lemma_last_dash_bounds(p: Seq<char>, end: int)
    requires
        0 <= end <= p.len(),
    ensures
        -1 <= last_dash_before(p, end) < end,
    decreases end,
{
    if end > 0 && p[end - 1] != '-' {
        lemma_last_dash_bounds(p, end - 1);
    }
}

impl ModuleRole {
    /// The suffix that names this role in program names.
    pub fn suffix(&self) -> (r: String)
        ensures
            r@ == role_suffix(*self),
    {
        match self {
            ModuleRole::Fetcher => "fetcher".to_owned(),
            ModuleRole::Reader => "reader".to_owned(),
            ModuleRole::Cataloger => "cataloger".to_owned(),
            ModuleRole::Importer => "importer".to_owned(),
            ModuleRole::Prompter => "prompter".to_owned(),
            ModuleRole::Other(s) => s.clone(),
        }
    }

    /// The executable that runs module `name` in this role, such as
    /// `asimov-<name>-fetcher`.
    pub fn program(&self, name: &str) -> (r: String)
        ensures
            r@ == program_name(name@, role_suffix(*self)),
    {
        let suffix = self.suffix();
        let mut r = "asimov-".to_owned();
        r.append(name);
        r.append("-");
        r.append(suffix.as_str());
        r
    }
}

/// The last `-`-separated segment of the program name `p`.
fn last_segment_of(p: &str) -> (r: String)
    ensures
        r@ == last_segment(p@),
{
    let n = p.unicode_len();
    let mut end: usize = n;
    while end > 0
        invariant
            n == p@.len(),
            end <= n,
            last_dash_before(p@, n as int) == last_dash_before(p@, end as int),
        ensures
            end == 0 || p@[end - 1] == '-',
            last_dash_before(p@, n as int) == last_dash_before(p@, end as int),
        decreases end,
    {
        if p.get_char(end - 1) == '-' {
            break;
        }
        end = end - 1;
    }
    proof {
        lemma_last_dash_bounds(p@, n as int);
    }
    p.substring_char(end, n).to_owned()
}

/// Whether one of `programs` plays `role`.
pub fn provides(programs: &Vec<String>, role: &ModuleRole) -> (r: bool)
    ensures
        r == provides_role(programs@.map_values(|s: String| s@), *role),
{
    let ghost views = programs@.map_values(|s: String| s@);
    let suffix = role.suffix();
    let mut i: usize = 0;
    while i < programs.len()
        invariant
            i <= programs.len(),
            views == programs@.map_values(|s: String| s@),
            suffix@ == role_suffix(*role),
            forall|j: int| 0 <= j < i ==> last_segment(#[trigger] views[j]) != role_suffix(*role),
        decreases programs.len() - i,
    {
        let segment = last_segment_of(programs[i].as_str());
        if segment == suffix {
            assert(last_segment(views[i as int]) == role_suffix(*role));
            return true;
        }
        i = i + 1;
    }
    false
}

/// Which installed modules to keep when listing those of a role: module
/// `i`, whose program names are `programs[i]`, is kept when no role is asked
/// for or when it provides the role asked for.
pub fn modules_with_role(programs: &Vec<Vec<String>>, role: Option<&ModuleRole>) -> (r: Vec<bool>)
    ensures
        r.len() == programs.len(),
        forall|i: int| 0 <= i < r.len() ==> #[trigger] r@[i] == match role {
            Some(role) => provides_role(programs@[i]@.map_values(|s: String| s@), *role),
            None => true,
        },
{
    let mut keep: Vec<bool> = Vec::new();
    let mut i: usize = 0;
    while i < programs.len()
        invariant
            i <= programs.len(),
            keep.len() == i,
            forall|j: int| 0 <= j < i ==> #[trigger] keep@[j] == match role {
                Some(role) => provides_role(programs@[j]@.map_values(|s: String| s@), *role),
                None => true,
            },
        decreases programs.len() - i,
    {
        let k = match role {
            Some(role) => provides(&programs[i], role),
            None => true,
        };
        keep.push(k);
        i = i + 1;
    }
    keep
}

} // verus!
