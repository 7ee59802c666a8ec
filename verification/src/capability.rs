//! Capability namespace and profile expansion.
//!
//! Capabilities are a closed set: [`Capability::parse`] is the only way to
//! turn an arbitrary string into a `Capability`, and it returns `None` for
//! anything outside [`Capability::ALL`]. "Unknown capability" is therefore a
//! representable, deniable state rather than a string that slips through.

use vstd::prelude::*;

use crate::text::text_eq;

verus! {

/// One capability. The variants are declared in the lexical order of their
/// dotted names, so the derived order agrees with name order.
#[derive(Debug, Clone, Copy, PartialEq, Eq, Structural, PartialOrd, Ord, Hash)]
pub enum Capability {
    DrcRun,
    ErcRun,
    ManufacturingExport,
    ManufacturingRead,
    PcbRead,
    PcbWrite,
    ProjectRead,
    ProjectWrite,
    SchematicRead,
    SchematicWrite,
    ValidationRun,
    WorkspaceRead,
}

/// The position of each kind in capability-name order.
pub open spec fn kind_rank(kind: Capability) -> nat {
    match kind {
        Capability::DrcRun => 0,
        Capability::ErcRun => 1,
        Capability::ManufacturingExport => 2,
        Capability::ManufacturingRead => 3,
        Capability::PcbRead => 4,
        Capability::PcbWrite => 5,
        Capability::ProjectRead => 6,
        Capability::ProjectWrite => 7,
        Capability::SchematicRead => 8,
        Capability::SchematicWrite => 9,
        Capability::ValidationRun => 10,
        Capability::WorkspaceRead => 11,
    }
}

/// The dotted name of each capability kind.
pub open spec fn kind_name(kind: Capability) -> Seq<char> {
    match kind {
        Capability::DrcRun => "drc.run"@,
        Capability::ErcRun => "erc.run"@,
        Capability::ManufacturingExport => "manufacturing.export"@,
        Capability::ManufacturingRead => "manufacturing.read"@,
        Capability::PcbRead => "pcb.read"@,
        Capability::PcbWrite => "pcb.write"@,
        Capability::ProjectRead => "project.read"@,
        Capability::ProjectWrite => "project.write"@,
        Capability::SchematicRead => "schematic.read"@,
        Capability::SchematicWrite => "schematic.write"@,
        Capability::ValidationRun => "validation.run"@,
        Capability::WorkspaceRead => "workspace.read"@,
    }
}

/// The capability whose name is `name`, if there is one.
pub open spec fn spec_capability_named(name: Seq<char>) -> Option<Capability> {
    if name == "project.read"@ {
        Some(Capability::ProjectRead)
    } else if name == "schematic.read"@ {
        Some(Capability::SchematicRead)
    } else if name == "schematic.write"@ {
        Some(Capability::SchematicWrite)
    } else if name == "pcb.read"@ {
        Some(Capability::PcbRead)
    } else if name == "pcb.write"@ {
        Some(Capability::PcbWrite)
    } else if name == "erc.run"@ {
        Some(Capability::ErcRun)
    } else if name == "drc.run"@ {
        Some(Capability::DrcRun)
    } else if name == "validation.run"@ {
        Some(Capability::ValidationRun)
    } else if name == "manufacturing.read"@ {
        Some(Capability::ManufacturingRead)
    } else if name == "manufacturing.export"@ {
        Some(Capability::ManufacturingExport)
    } else if name == "workspace.read"@ {
        Some(Capability::WorkspaceRead)
    } else if name == "project.write"@ {
        Some(Capability::ProjectWrite)
    } else {
        None
    }
}

impl Capability {
    pub const PROJECT_READ: Capability = Capability::ProjectRead;
    pub const SCHEMATIC_READ: Capability = Capability::SchematicRead;
    pub const SCHEMATIC_WRITE: Capability = Capability::SchematicWrite;
    pub const PCB_READ: Capability = Capability::PcbRead;
    pub const PCB_WRITE: Capability = Capability::PcbWrite;
    pub const ERC_RUN: Capability = Capability::ErcRun;
    pub const DRC_RUN: Capability = Capability::DrcRun;
    pub const VALIDATION_RUN: Capability = Capability::ValidationRun;
    pub const MANUFACTURING_READ: Capability = Capability::ManufacturingRead;
    pub const MANUFACTURING_EXPORT: Capability = Capability::ManufacturingExport;
    pub const WORKSPACE_READ: Capability = Capability::WorkspaceRead;
    pub const PROJECT_WRITE: Capability = Capability::ProjectWrite;

    /// Every capability there is, in the order the registry documents them.
    pub fn all() -> (all: Vec<Capability>)
        ensures
            all@.len() == 12,
            forall|c: Capability| #[trigger] all@.contains(c),
    {
        let all = vec![
            Capability::PROJECT_READ,
            Capability::SCHEMATIC_READ,
            Capability::SCHEMATIC_WRITE,
            Capability::PCB_READ,
            Capability::PCB_WRITE,
            Capability::ERC_RUN,
            Capability::DRC_RUN,
            Capability::VALIDATION_RUN,
            Capability::MANUFACTURING_READ,
            Capability::MANUFACTURING_EXPORT,
            Capability::WORKSPACE_READ,
            Capability::PROJECT_WRITE,
        ];
        assert forall|c: Capability| #[trigger] all@.contains(c) by {
            match c {
                Capability::ProjectRead => assert(all@[0] == c),
                Capability::SchematicRead => assert(all@[1] == c),
                Capability::SchematicWrite => assert(all@[2] == c),
                Capability::PcbRead => assert(all@[3] == c),
                Capability::PcbWrite => assert(all@[4] == c),
                Capability::ErcRun => assert(all@[5] == c),
                Capability::DrcRun => assert(all@[6] == c),
                Capability::ValidationRun => assert(all@[7] == c),
                Capability::ManufacturingRead => assert(all@[8] == c),
                Capability::ManufacturingExport => assert(all@[9] == c),
                Capability::WorkspaceRead => assert(all@[10] == c),
                Capability::ProjectWrite => assert(all@[11] == c),
            }
        }
        all
    }

    /// The dotted name of this capability.
    pub fn as_str(&self) -> (name: &'static str)
        ensures
            name@ == kind_name(*self),
    {
        match *self {
            Capability::DrcRun => "drc.run",
            Capability::ErcRun => "erc.run",
            Capability::ManufacturingExport => "manufacturing.export",
            Capability::ManufacturingRead => "manufacturing.read",
            Capability::PcbRead => "pcb.read",
            Capability::PcbWrite => "pcb.write",
            Capability::ProjectRead => "project.read",
            Capability::ProjectWrite => "project.write",
            Capability::SchematicRead => "schematic.read",
            Capability::SchematicWrite => "schematic.write",
            Capability::ValidationRun => "validation.run",
            Capability::WorkspaceRead => "workspace.read",
        }
    }

    /// The same text as [`Capability::as_str`], owned.
    pub fn to_string(&self) -> (name: String)
        ensures
            name@ == kind_name(*self),
    {
        String::from_str(self.as_str())
    }

    /// Parses a capability name. Returns `None` for any name outside the
    /// closed set: there is no fallback or wildcard capability.
    pub fn parse(name: &str) -> (parsed: Option<Capability>)
        ensures
            parsed == spec_capability_named(name@),
    {
        if text_eq(name, "project.read") {
            Some(Capability::PROJECT_READ)
        } else if text_eq(name, "schematic.read") {
            Some(Capability::SCHEMATIC_READ)
        } else if text_eq(name, "schematic.write") {
            Some(Capability::SCHEMATIC_WRITE)
        } else if text_eq(name, "pcb.read") {
            Some(Capability::PCB_READ)
        } else if text_eq(name, "pcb.write") {
            Some(Capability::PCB_WRITE)
        } else if text_eq(name, "erc.run") {
            Some(Capability::ERC_RUN)
        } else if text_eq(name, "drc.run") {
            Some(Capability::DRC_RUN)
        } else if text_eq(name, "validation.run") {
            Some(Capability::VALIDATION_RUN)
        } else if text_eq(name, "manufacturing.read") {
            Some(Capability::MANUFACTURING_READ)
        } else if text_eq(name, "manufacturing.export") {
            Some(Capability::MANUFACTURING_EXPORT)
        } else if text_eq(name, "workspace.read") {
            Some(Capability::WORKSPACE_READ)
        } else if text_eq(name, "project.write") {
            Some(Capability::PROJECT_WRITE)
        } else {
            None
        }
    }
}

/// Parsing the name of a capability gives that capability back.
pub proof fn lemma_capability_name_round_trip(c: Capability)
    ensures
        spec_capability_named(kind_name(c)) == Some(c),
{
    reveal_strlit("drc.run");
    reveal_strlit("erc.run");
    reveal_strlit("manufacturing.export");
    reveal_strlit("manufacturing.read");
    reveal_strlit("pcb.read");
    reveal_strlit("pcb.write");
    reveal_strlit("project.read");
    reveal_strlit("project.write");
    reveal_strlit("schematic.read");
    reveal_strlit("schematic.write");
    reveal_strlit("validation.run");
    reveal_strlit("workspace.read");
    match c {
        Capability::DrcRun => assert(kind_name(c)[0] == 'd' && kind_name(c).len() == 7),
        Capability::ErcRun => assert(kind_name(c)[0] == 'e' && kind_name(c).len() == 7),
        Capability::ManufacturingExport => assert(kind_name(c)[0] == 'm' && kind_name(c).len() == 20),
        Capability::ManufacturingRead => assert(kind_name(c)[0] == 'm' && kind_name(c).len() == 18),
        Capability::PcbRead => assert(kind_name(c)[0] == 'p' && kind_name(c).len() == 8),
        Capability::PcbWrite => assert(kind_name(c)[0] == 'p' && kind_name(c).len() == 9),
        Capability::ProjectRead => assert(kind_name(c)[0] == 'p' && kind_name(c).len() == 12),
        Capability::ProjectWrite => assert(kind_name(c)[0] == 'p' && kind_name(c).len() == 13),
        Capability::SchematicRead => assert(kind_name(c)[0] == 's' && kind_name(c).len() == 14),
        Capability::SchematicWrite => assert(kind_name(c)[0] == 's' && kind_name(c).len() == 15),
        Capability::ValidationRun => assert(kind_name(c)[0] == 'v' && kind_name(c).len() == 14),
        Capability::WorkspaceRead => assert(kind_name(c)[0] == 'w' && kind_name(c).len() == 14),
    }
}

/// Distinct capabilities have distinct names: two capabilities share a name
/// exactly when they are the same capability.
pub proof fn lemma_capability_names_distinct(c1: Capability, c2: Capability)
    ensures
        (kind_name(c1) == kind_name(c2)) <==> c1 == c2,
{
    lemma_capability_name_round_trip(c1);
    lemma_capability_name_round_trip(c2);
}

/// A name parses to a capability exactly when it is that capability's name;
/// every other name parses to nothing.
pub proof fn lemma_capability_named_iff(name: Seq<char>, c: Capability)
    ensures
        spec_capability_named(name) == Some(c) <==> kind_name(c) == name,
{
    lemma_capability_name_round_trip(c);
}

/// A set of capabilities, one membership flag per capability kind.
#[derive(Debug, Clone, Copy, PartialEq, Eq, Structural, Hash, Default)]
pub struct CapabilitySet {
    drc_run: bool,
    erc_run: bool,
    manufacturing_export: bool,
    manufacturing_read: bool,
    pcb_read: bool,
    pcb_write: bool,
    project_read: bool,
    project_write: bool,
    schematic_read: bool,
    schematic_write: bool,
    validation_run: bool,
    workspace_read: bool,
}

impl CapabilitySet {
    /// Whether `kind` is a member.
    pub closed spec fn has(self, kind: Capability) -> bool {
        match kind {
            Capability::DrcRun => self.drc_run,
            Capability::ErcRun => self.erc_run,
            Capability::ManufacturingExport => self.manufacturing_export,
            Capability::ManufacturingRead => self.manufacturing_read,
            Capability::PcbRead => self.pcb_read,
            Capability::PcbWrite => self.pcb_write,
            Capability::ProjectRead => self.project_read,
            Capability::ProjectWrite => self.project_write,
            Capability::SchematicRead => self.schematic_read,
            Capability::SchematicWrite => self.schematic_write,
            Capability::ValidationRun => self.validation_run,
            Capability::WorkspaceRead => self.workspace_read,
        }
    }

    pub open spec fn spec_contains(self, c: Capability) -> bool {
        self.has(c)
    }

    /// Every member of `self` is a member of `other`.
    pub open spec fn spec_subset_of(self, other: CapabilitySet) -> bool {
        forall|c: Capability| #[trigger] self.spec_contains(c) ==> other.spec_contains(c)
    }

    /// The empty set.
    pub fn new() -> (s: CapabilitySet)
        ensures
            forall|c: Capability| !(#[trigger] s.spec_contains(c)),
    {
        CapabilitySet {
            drc_run: false,
            erc_run: false,
            manufacturing_export: false,
            manufacturing_read: false,
            pcb_read: false,
            pcb_write: false,
            project_read: false,
            project_write: false,
            schematic_read: false,
            schematic_write: false,
            validation_run: false,
            workspace_read: false,
        }
    }

    /// The set holding exactly the given capabilities.
    pub fn from_slice(caps: &[Capability]) -> (s: CapabilitySet)
        ensures
            forall|c: Capability| #[trigger] s.spec_contains(c) <==> caps@.contains(c),
    {
        let mut s = CapabilitySet::new();
        let mut i: usize = 0;
        while i < caps.len()
            invariant
                i <= caps@.len(),
                forall|c: Capability|
                    #[trigger] s.spec_contains(c) <==> caps@.subrange(0, i as int).contains(c),
            decreases caps@.len() - i,
        {
            let ghost before = s;
            s.insert(caps[i]);
            assert forall|c: Capability| #[trigger]
                s.spec_contains(c) <==> caps@.subrange(0, i + 1).contains(c) by {
                if caps@.subrange(0, i + 1).contains(c) {
                    let k = choose|k: int|
                        0 <= k < i + 1 && #[trigger] caps@.subrange(0, i + 1)[k] == c;
                    if k < i {
                        assert(caps@.subrange(0, i as int)[k] == c);
                    }
                }
                if caps@.subrange(0, i as int).contains(c) {
                    let k = choose|k: int|
                        0 <= k < i && #[trigger] caps@.subrange(0, i as int)[k] == c;
                    assert(caps@.subrange(0, i + 1)[k] == c);
                }
                if c == caps@[i as int] {
                    assert(caps@.subrange(0, i + 1)[i as int] == c);
                }
            }
            i = i + 1;
        }
        assert(caps@.subrange(0, caps@.len() as int) =~= caps@);
        s
    }

    /// Whether `capability` is a member.
    pub fn contains(&self, capability: &Capability) -> (r: bool)
        ensures
            r == self.spec_contains(*capability),
    {
        match capability {
            Capability::DrcRun => self.drc_run,
            Capability::ErcRun => self.erc_run,
            Capability::ManufacturingExport => self.manufacturing_export,
            Capability::ManufacturingRead => self.manufacturing_read,
            Capability::PcbRead => self.pcb_read,
            Capability::PcbWrite => self.pcb_write,
            Capability::ProjectRead => self.project_read,
            Capability::ProjectWrite => self.project_write,
            Capability::SchematicRead => self.schematic_read,
            Capability::SchematicWrite => self.schematic_write,
            Capability::ValidationRun => self.validation_run,
            Capability::WorkspaceRead => self.workspace_read,
        }
    }

    /// Adds `capability`; returns whether it was newly added.
    pub fn insert(&mut self, capability: Capability) -> (added: bool)
        ensures
            added == !old(self).spec_contains(capability),
            forall|c: Capability| #[trigger]
                final(self).spec_contains(c) <==> (old(self).spec_contains(c) || c == capability),
    {
        let added = !self.contains(&capability);
        match capability {
            Capability::DrcRun => self.drc_run = true,
            Capability::ErcRun => self.erc_run = true,
            Capability::ManufacturingExport => self.manufacturing_export = true,
            Capability::ManufacturingRead => self.manufacturing_read = true,
            Capability::PcbRead => self.pcb_read = true,
            Capability::PcbWrite => self.pcb_write = true,
            Capability::ProjectRead => self.project_read = true,
            Capability::ProjectWrite => self.project_write = true,
            Capability::SchematicRead => self.schematic_read = true,
            Capability::SchematicWrite => self.schematic_write = true,
            Capability::ValidationRun => self.validation_run = true,
            Capability::WorkspaceRead => self.workspace_read = true,
        }
        added
    }

    /// Whether there are no members.
    pub fn is_empty(&self) -> (r: bool)
        ensures
            r == (forall|c: Capability| !(#[trigger] self.spec_contains(c))),
    {
        let r = !(self.drc_run || self.erc_run || self.manufacturing_export
            || self.manufacturing_read || self.pcb_read || self.pcb_write || self.project_read
            || self.project_write || self.schematic_read || self.schematic_write
            || self.validation_run || self.workspace_read);
        if !r {
            let ghost kinds = seq![
                Capability::DrcRun,
                Capability::ErcRun,
                Capability::ManufacturingExport,
                Capability::ManufacturingRead,
                Capability::PcbRead,
                Capability::PcbWrite,
                Capability::ProjectRead,
                Capability::ProjectWrite,
                Capability::SchematicRead,
                Capability::SchematicWrite,
                Capability::ValidationRun,
                Capability::WorkspaceRead,
            ];
            assert(exists|i: int| 0 <= i < 12 && self.spec_contains(kinds[i]));
        }
        r
    }

    /// The member of `self` that `other` lacks and that comes first in
    /// capability-name order, if there is one.
    pub fn first_missing_from(&self, other: &CapabilitySet) -> (missing: Option<Capability>)
        ensures
            missing is None <==> self.spec_subset_of(*other),
            missing matches Some(c) ==> {
                &&& self.spec_contains(c)
                &&& !other.spec_contains(c)
                &&& forall|d: Capability|
                    kind_rank(d) < kind_rank(c) && #[trigger] self.spec_contains(d)
                        ==> other.spec_contains(d)
            },
    {
        if self.drc_run && !other.drc_run {
            assert(self.spec_contains(Capability::DRC_RUN));
            return Some(Capability::DRC_RUN);
        }
        if self.erc_run && !other.erc_run {
            assert(self.spec_contains(Capability::ERC_RUN));
            return Some(Capability::ERC_RUN);
        }
        if self.manufacturing_export && !other.manufacturing_export {
            assert(self.spec_contains(Capability::MANUFACTURING_EXPORT));
            return Some(Capability::MANUFACTURING_EXPORT);
        }
        if self.manufacturing_read && !other.manufacturing_read {
            assert(self.spec_contains(Capability::MANUFACTURING_READ));
            return Some(Capability::MANUFACTURING_READ);
        }
        if self.pcb_read && !other.pcb_read {
            assert(self.spec_contains(Capability::PCB_READ));
            return Some(Capability::PCB_READ);
        }
        if self.pcb_write && !other.pcb_write {
            assert(self.spec_contains(Capability::PCB_WRITE));
            return Some(Capability::PCB_WRITE);
        }
        if self.project_read && !other.project_read {
            assert(self.spec_contains(Capability::PROJECT_READ));
            return Some(Capability::PROJECT_READ);
        }
        if self.project_write && !other.project_write {
            assert(self.spec_contains(Capability::PROJECT_WRITE));
            return Some(Capability::PROJECT_WRITE);
        }
        if self.schematic_read && !other.schematic_read {
            assert(self.spec_contains(Capability::SCHEMATIC_READ));
            return Some(Capability::SCHEMATIC_READ);
        }
        if self.schematic_write && !other.schematic_write {
            assert(self.spec_contains(Capability::SCHEMATIC_WRITE));
            return Some(Capability::SCHEMATIC_WRITE);
        }
        if self.validation_run && !other.validation_run {
            assert(self.spec_contains(Capability::VALIDATION_RUN));
            return Some(Capability::VALIDATION_RUN);
        }
        if self.workspace_read && !other.workspace_read {
            assert(self.spec_contains(Capability::WORKSPACE_READ));
            return Some(Capability::WORKSPACE_READ);
        }
        None
    }

    /// Whether every member of `self` is also in `other`.
    pub fn is_subset(&self, other: &CapabilitySet) -> (r: bool)
        ensures
            r == self.spec_subset_of(*other),
    {
        let r = (!self.drc_run || other.drc_run) && (!self.erc_run || other.erc_run) && (
        !self.manufacturing_export || other.manufacturing_export) && (!self.manufacturing_read
            || other.manufacturing_read) && (!self.pcb_read || other.pcb_read) && (!self.pcb_write
            || other.pcb_write) && (!self.project_read || other.project_read) && (
        !self.project_write || other.project_write) && (!self.schematic_read
            || other.schematic_read) && (!self.schematic_write || other.schematic_write) && (
        !self.validation_run || other.validation_run) && (!self.workspace_read
            || other.workspace_read);
        if !r {
            let ghost kinds = seq![
                Capability::DrcRun,
                Capability::ErcRun,
                Capability::ManufacturingExport,
                Capability::ManufacturingRead,
                Capability::PcbRead,
                Capability::PcbWrite,
                Capability::ProjectRead,
                Capability::ProjectWrite,
                Capability::SchematicRead,
                Capability::SchematicWrite,
                Capability::ValidationRun,
                Capability::WorkspaceRead,
            ];
            assert(exists|i: int|
                0 <= i < 12 && self.spec_contains(kinds[i]) && !other.spec_contains(kinds[i]));
        }
        r
    }
}

/// A named bundle of capabilities, or an explicit custom set.
#[derive(Debug, Clone, Copy, PartialEq, Eq, Structural)]
pub enum CapabilityProfile {
    Inspect,
    Design,
    Manufacturing,
    Custom(CapabilitySet),
}

/// Members of the Inspect profile: read and validation only.
pub open spec fn inspect_member(kind: Capability) -> bool {
    match kind {
        Capability::ProjectRead | Capability::SchematicRead | Capability::PcbRead
        | Capability::ValidationRun | Capability::ErcRun | Capability::DrcRun
        | Capability::WorkspaceRead => true,
        _ => false,
    }
}

/// Members of the Design profile: Inspect plus the three write capabilities.
pub open spec fn design_member(kind: Capability) -> bool {
    inspect_member(kind) || kind == Capability::SchematicWrite || kind
        == Capability::PcbWrite || kind == Capability::ProjectWrite
}

/// Members of the Manufacturing profile: Design plus manufacturing read/export.
pub open spec fn manufacturing_member(kind: Capability) -> bool {
    design_member(kind) || kind == Capability::ManufacturingRead || kind
        == Capability::ManufacturingExport
}

impl CapabilityProfile {
    /// Whether the profile's effective set holds `c`.
    pub open spec fn grants(self, c: Capability) -> bool {
        match self {
            CapabilityProfile::Inspect => inspect_member(c),
            CapabilityProfile::Design => design_member(c),
            CapabilityProfile::Manufacturing => manufacturing_member(c),
            CapabilityProfile::Custom(set) => set.spec_contains(c),
        }
    }

    /// Expands the profile to the capabilities it grants.
    pub fn effective_capabilities(&self) -> (caps: CapabilitySet)
        ensures
            forall|c: Capability| #[trigger] caps.spec_contains(c) <==> self.grants(c),
            self matches CapabilityProfile::Custom(set) ==> caps == set,
    {
        match self {
            CapabilityProfile::Inspect => inspect_capabilities(),
            CapabilityProfile::Design => design_capabilities(),
            CapabilityProfile::Manufacturing => manufacturing_capabilities(),
            CapabilityProfile::Custom(set) => *set,
        }
    }
}

fn inspect_capabilities() -> (caps: CapabilitySet)
    ensures
        forall|c: Capability| #[trigger] caps.spec_contains(c) <==> inspect_member(c),
{
    let mut caps = CapabilitySet::new();
    caps.insert(Capability::PROJECT_READ);
    caps.insert(Capability::SCHEMATIC_READ);
    caps.insert(Capability::PCB_READ);
    caps.insert(Capability::VALIDATION_RUN);
    caps.insert(Capability::ERC_RUN);
    caps.insert(Capability::DRC_RUN);
    caps.insert(Capability::WORKSPACE_READ);
    caps
}

fn design_capabilities() -> (caps: CapabilitySet)
    ensures
        forall|c: Capability| #[trigger] caps.spec_contains(c) <==> design_member(c),
{
    let mut caps = inspect_capabilities();
    caps.insert(Capability::SCHEMATIC_WRITE);
    caps.insert(Capability::PCB_WRITE);
    caps.insert(Capability::PROJECT_WRITE);
    caps
}

fn manufacturing_capabilities() -> (caps: CapabilitySet)
    ensures
        forall|c: Capability| #[trigger] caps.spec_contains(c) <==> manufacturing_member(c),
{
    let mut caps = design_capabilities();
    caps.insert(Capability::MANUFACTURING_READ);
    caps.insert(Capability::MANUFACTURING_EXPORT);
    caps
}

/// Each named profile contains the one below it: Inspect within Design
/// within Manufacturing.
pub proof fn lemma_profiles_are_nested(c: Capability)
    ensures
        CapabilityProfile::Inspect.grants(c) ==> CapabilityProfile::Design.grants(c),
        CapabilityProfile::Design.grants(c) ==> CapabilityProfile::Manufacturing.grants(c),
{
}

/// The Inspect profile writes nothing and exports nothing; the Design
/// profile never reaches manufacturing capabilities.
pub proof fn lemma_profile_boundaries()
    ensures
        !CapabilityProfile::Inspect.grants(Capability::SCHEMATIC_WRITE),
        !CapabilityProfile::Inspect.grants(Capability::PCB_WRITE),
        !CapabilityProfile::Inspect.grants(Capability::PROJECT_WRITE),
        !CapabilityProfile::Inspect.grants(Capability::MANUFACTURING_EXPORT),
        !CapabilityProfile::Design.grants(Capability::MANUFACTURING_EXPORT),
        !CapabilityProfile::Design.grants(Capability::MANUFACTURING_READ),
        CapabilityProfile::Manufacturing.grants(Capability::MANUFACTURING_EXPORT),
{
}

} // verus!
