use vstd::prelude::*;

verus! {

/// How an export is used under one runtime.
#[derive(Clone, Copy, Debug, PartialEq, Eq, Structural)]
pub enum UsageState {
    Unused,
    OnlyPropertiesUsed,
    NoInfo,
    Unknown,
    Used,
}

/// The state recorded for `runtime` by the first entry that names it.
pub open spec fn lookup_usage(entries: Seq<(u64, UsageState)>, runtime: u64) -> Option<UsageState>
    decreases entries.len(),
{
    if entries.len() == 0 {
        None
    } else if entries[0].0 == runtime {
        Some(entries[0].1)
    } else {
        lookup_usage(entries.subrange(1, entries.len() as int), runtime)
    }
}

/// The usage of an export under a runtime; a runtime with no entry does not use it.
pub open spec fn usage_under(entries: Seq<(u64, UsageState)>, runtime: u64) -> UsageState {
    match lookup_usage(entries, runtime) {
        Some(u) => u,
        None => UsageState::Unused,
    }
}

/// Usage of one export, per runtime key.
#[derive(Debug)]
pub struct ExportInfo {
    pub name: String,
    pub usage: Vec<(u64, UsageState)>,
}

impl ExportInfo {
    pub fn get_used(&self, runtime: u64) -> (r: UsageState)
        ensures
            r == usage_under(self.usage@, runtime),
    {
        let ghost e = self.usage@;
        let mut i: usize = 0;
        assert(e.subrange(0, e.len() as int) =~= e);
        while i < self.usage.len()
            invariant
                i <= e.len(),
                e == self.usage@,
                lookup_usage(e, runtime) == lookup_usage(e.subrange(i as int, e.len() as int), runtime),
            decreases e.len() - i,
        {
            let (key, state) = self.usage[i];
            assert(e.subrange(i as int, e.len() as int).subrange(1, e.len() - i) =~= e.subrange(
                i + 1,
                e.len() as int,
            ));
            if key == runtime {
                return state;
            }
            i = i + 1;
        }
        UsageState::Unused
    }
}

/// The usage entries of the first export named `name`, if any.
pub open spec fn lookup_export(exports: Seq<ExportInfo>, name: Seq<char>) -> Option<Seq<(u64, UsageState)>>
    decreases exports.len(),
{
    if exports.len() == 0 {
        None
    } else if exports[0].name@ == name {
        Some(exports[0].usage@)
    } else {
        lookup_export(exports.subrange(1, exports.len() as int), name)
    }
}

/// A snapshot of a module's exports: the named ones, and the usage shared by
/// every export not listed.
#[derive(Debug)]
pub struct ExportsInfo {
    pub exports: Vec<ExportInfo>,
    pub other: ExportInfo,
}

impl ExportsInfo {
    /// Usage entries that apply to the export `name`.
    pub open spec fn entries_of(&self, name: Seq<char>) -> Seq<(u64, UsageState)> {
        match lookup_export(self.exports@, name) {
            Some(e) => e,
            None => self.other.usage@,
        }
    }

    /// The export record that applies to `name`.
    pub fn get_read_only_export_info(&self, name: &String) -> (r: &ExportInfo)
        ensures
            r.usage@ == self.entries_of(name@),
    {
        let ghost ex = self.exports@;
        let mut i: usize = 0;
        assert(ex.subrange(0, ex.len() as int) =~= ex);
        while i < self.exports.len()
            invariant
                i <= ex.len(),
                ex == self.exports@,
                lookup_export(ex, name@) == lookup_export(ex.subrange(i as int, ex.len() as int), name@),
            decreases ex.len() - i,
        {
            assert(ex.subrange(i as int, ex.len() as int).subrange(1, ex.len() - i) =~= ex.subrange(
                i + 1,
                ex.len() as int,
            ));
            if self.exports[i].name == *name {
                return &self.exports[i];
            }
            i = i + 1;
        }
        &self.other
    }
}

/// A module as the code generator sees it.
#[derive(Debug)]
pub struct Module {
    pub exports_argument: String,
    pub module_argument: String,
    pub is_async: bool,
    pub has_top_level_await: bool,
    pub exports_info: ExportsInfo,
}

/// Modules stored by identifier; the identifier is the position.
#[derive(Debug)]
pub struct ModuleGraph {
    pub modules: Vec<Module>,
}

impl ModuleGraph {
    pub fn module_by_identifier(&self, id: usize) -> (r: Option<&Module>)
        ensures
            id < self.modules@.len() ==> r == Some(&self.modules@[id as int]),
            id >= self.modules@.len() ==> r is None,
    {
        if id < self.modules.len() {
            Some(&self.modules[id])
        } else {
            None
        }
    }

    pub fn is_async(&self, id: usize) -> (r: bool)
        requires
            id < self.modules@.len(),
        ensures
            r == self.modules@[id as int].is_async,
    {
        self.modules[id].is_async
    }
}

} // verus!
