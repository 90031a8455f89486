//! Registry of known build versions and the rule that selects the
//! definition matching a detected Windows version.
//!
//! Each variant of [`BuildVersion`] names one epoch of the Virtual
//! Desktop interface shapes.  Several Windows releases may share one
//! epoch; a new variant exists only where an interface identifier or a
//! method table changed.  Selection picks the newest declared epoch not
//! newer than the detected system, falling back to the oldest epoch when
//! the system is older than everything declared, and to the newest epoch
//! when version detection failed altogether (the system is then assumed
//! to be recent but running with version queries blocked).

use crate::version::WindowsVersion;
use vstd::prelude::*;

verus! {

/// One declared epoch of interface definitions, named after the Windows
/// build (and, where one build line changed shape mid-life, the update
/// revision) that introduced it.
#[derive(Clone, Copy, Debug, PartialEq, Eq, Structural)]
#[allow(non_camel_case_types)]
pub enum BuildVersion {
    Build10240,
    Build17134,
    Build17663,
    Build19044_4355,
    Build19045,
    Build22000,
    Build22621_2215,
    Build22631_2428,
    Build26100,
}

impl BuildVersion {
    /// Position in declaration order (ascending by version).
    pub open spec fn decl_index(self) -> int {
        match self {
            BuildVersion::Build10240 => 0,
            BuildVersion::Build17134 => 1,
            BuildVersion::Build17663 => 2,
            BuildVersion::Build19044_4355 => 3,
            BuildVersion::Build19045 => 4,
            BuildVersion::Build22000 => 5,
            BuildVersion::Build22621_2215 => 6,
            BuildVersion::Build22631_2428 => 7,
            BuildVersion::Build26100 => 8,
        }
    }

    /// The version this epoch first supports.
    pub open spec fn spec_version(self) -> WindowsVersion {
        match self {
            BuildVersion::Build10240 => WindowsVersion { major: 10, minor: 0, build: 10240, patch: 0 },
            BuildVersion::Build17134 => WindowsVersion { major: 10, minor: 0, build: 17134, patch: 0 },
            BuildVersion::Build17663 => WindowsVersion { major: 10, minor: 0, build: 17663, patch: 0 },
            BuildVersion::Build19044_4355 => WindowsVersion { major: 10, minor: 0, build: 19044, patch: 4355 },
            BuildVersion::Build19045 => WindowsVersion { major: 10, minor: 0, build: 19045, patch: 0 },
            BuildVersion::Build22000 => WindowsVersion { major: 10, minor: 0, build: 22000, patch: 0 },
            BuildVersion::Build22621_2215 => WindowsVersion { major: 10, minor: 0, build: 22621, patch: 2215 },
            BuildVersion::Build22631_2428 => WindowsVersion { major: 10, minor: 0, build: 22631, patch: 2428 },
            BuildVersion::Build26100 => WindowsVersion { major: 10, minor: 0, build: 26100, patch: 0 },
        }
    }

    /// Build and update-revision numbers that this epoch supports, as a
    /// pair.  The epoch may serve later versions as well, up to the next
    /// declared epoch.
    pub fn windows_version(&self) -> (r: (u32, u32))
        ensures
            r.0 == self.spec_version().build,
            r.1 == self.spec_version().patch,
    {
        match self {
            BuildVersion::Build10240 => (10240, 0),
            BuildVersion::Build17134 => (17134, 0),
            BuildVersion::Build17663 => (17663, 0),
            BuildVersion::Build19044_4355 => (19044, 4355),
            BuildVersion::Build19045 => (19045, 0),
            BuildVersion::Build22000 => (22000, 0),
            BuildVersion::Build22621_2215 => (22621, 2215),
            BuildVersion::Build22631_2428 => (22631, 2428),
            BuildVersion::Build26100 => (26100, 0),
        }
    }

    /// Full version tuple of this epoch.
    pub fn version(&self) -> (r: WindowsVersion)
        ensures
            r == self.spec_version(),
    {
        let (build, patch) = self.windows_version();
        WindowsVersion { major: 10, minor: 0, build, patch }
    }

    /// All declared epochs, in declaration order.
    pub open spec fn spec_all() -> Seq<BuildVersion> {
        seq![
            BuildVersion::Build10240,
            BuildVersion::Build17134,
            BuildVersion::Build17663,
            BuildVersion::Build19044_4355,
            BuildVersion::Build19045,
            BuildVersion::Build22000,
            BuildVersion::Build22621_2215,
            BuildVersion::Build22631_2428,
            BuildVersion::Build26100,
        ]
    }

    pub fn all_build_versions() -> (r: Vec<BuildVersion>)
        ensures
            r@ == Self::spec_all(),
    {
        let mut v: Vec<BuildVersion> = Vec::new();
        v.push(BuildVersion::Build10240);
        v.push(BuildVersion::Build17134);
        v.push(BuildVersion::Build17663);
        v.push(BuildVersion::Build19044_4355);
        v.push(BuildVersion::Build19045);
        v.push(BuildVersion::Build22000);
        v.push(BuildVersion::Build22621_2215);
        v.push(BuildVersion::Build22631_2428);
        v.push(BuildVersion::Build26100);
        proof {
            assert(v@ =~= Self::spec_all());
        }
        v
    }

    /// Declaration order agrees with the version order, strictly.
    pub proof fn lemma_declared_ascending()
        ensures
            forall|i: int, j: int|
                0 <= i < j < Self::spec_all().len() ==> WindowsVersion::spec_lt(
                    #[trigger] Self::spec_all()[i].spec_version(),
                    #[trigger] Self::spec_all()[j].spec_version(),
                ),
    {
    }
}

/// The version tuples of all declared epochs, in declaration order.
pub open spec fn spec_declared_versions() -> Seq<WindowsVersion> {
    BuildVersion::spec_all().map(|i: int, b: BuildVersion| b.spec_version())
}

/// Index selected from a declared list for a detected version: the last
/// entry that is not newer than the detected version, or the first entry
/// when every declared version is newer.
pub open spec fn spec_selected_index(declared: Seq<WindowsVersion>, detected: WindowsVersion) -> int
    decreases declared.len(),
{
    if declared.len() == 0 {
        0
    } else if WindowsVersion::spec_le(declared.last(), detected) {
        declared.len() - 1
    } else {
        spec_selected_index(declared.drop_last(), detected)
    }
}

pub proof fn lemma_selected_index_in_range(declared: Seq<WindowsVersion>, detected: WindowsVersion)
    requires
        declared.len() > 0,
    ensures
        0 <= spec_selected_index(declared, detected) < declared.len(),
    decreases declared.len(),
{
    if !WindowsVersion::spec_le(declared.last(), detected) {
        if declared.len() > 1 {
            lemma_selected_index_in_range(declared.drop_last(), detected);
        } else {
            assert(declared.drop_last().len() == 0);
            assert(spec_selected_index(declared.drop_last(), detected) == 0);
        }
    }
}

/// When the chosen entry qualifies, it is the last qualifying one, and
/// every qualifying entry sits at or before it.
pub proof fn lemma_selected_index_is_last_qualifying(
    declared: Seq<WindowsVersion>,
    detected: WindowsVersion,
)
    requires
        declared.len() > 0,
    ensures
        (exists|i: int|
            0 <= i < declared.len() && #[trigger] WindowsVersion::spec_le(declared[i], detected))
            ==> WindowsVersion::spec_le(declared[spec_selected_index(declared, detected)], detected),
        forall|i: int|
            0 <= i < declared.len() && #[trigger] WindowsVersion::spec_le(declared[i], detected)
                ==> i <= spec_selected_index(declared, detected),
        (forall|i: int|
            0 <= i < declared.len() ==> !#[trigger] WindowsVersion::spec_le(declared[i], detected))
            ==> spec_selected_index(declared, detected) == 0,
    decreases declared.len(),
{
    if WindowsVersion::spec_le(declared.last(), detected) {
    } else if declared.len() == 1 {
        assert(declared.drop_last().len() == 0);
        assert(spec_selected_index(declared.drop_last(), detected) == 0);
    } else {
        lemma_selected_index_is_last_qualifying(declared.drop_last(), detected);
        lemma_selected_index_in_range(declared.drop_last(), detected);
        let sel = spec_selected_index(declared, detected);
        assert(sel == spec_selected_index(declared.drop_last(), detected));
        assert(sel < declared.len() - 1);
        if exists|i: int|
            0 <= i < declared.len() && #[trigger] WindowsVersion::spec_le(declared[i], detected) {
            let i = choose|i: int|
                0 <= i < declared.len() && #[trigger] WindowsVersion::spec_le(
                    declared[i],
                    detected,
                );
            assert(i < declared.len() - 1);
            assert(WindowsVersion::spec_le(declared.drop_last()[i], detected));
            assert(WindowsVersion::spec_le(declared.drop_last()[sel], detected));
            assert(declared[sel] == declared.drop_last()[sel]);
        }
        assert forall|i: int|
            0 <= i < declared.len() && #[trigger] WindowsVersion::spec_le(declared[i], detected)
                implies i <= sel by {
            assert(i < declared.len() - 1);
            assert(declared.drop_last()[i] == declared[i]);
        }
    }
}

/// Raising the detected version never selects an earlier entry.
pub proof fn lemma_selection_monotonic(
    declared: Seq<WindowsVersion>,
    t1: WindowsVersion,
    t2: WindowsVersion,
)
    requires
        WindowsVersion::spec_le(t1, t2),
    ensures
        spec_selected_index(declared, t1) <= spec_selected_index(declared, t2),
    decreases declared.len(),
{
    if declared.len() > 0 {
        if WindowsVersion::spec_le(declared.last(), t1) {
            WindowsVersion::lemma_le_trans(declared.last(), t1, t2);
            if declared.len() > 1 {
                lemma_selected_index_in_range(declared.drop_last(), t1);
            }
        } else {
            lemma_selection_monotonic(declared.drop_last(), t1, t2);
            if WindowsVersion::spec_le(declared.last(), t2) {
                if declared.len() > 1 {
                    lemma_selected_index_in_range(declared.drop_last(), t1);
                }
            }
        }
    }
}

/// Raising the detected version never moves the registry's choice to an
/// earlier epoch.
pub proof fn lemma_registry_selection_monotonic(t1: WindowsVersion, t2: WindowsVersion)
    requires
        WindowsVersion::spec_le(t1, t2),
    ensures
        WindowsVersion::spec_le(
            spec_selected_build(Some(t1)).spec_version(),
            spec_selected_build(Some(t2)).spec_version(),
        ),
{
    let d = spec_declared_versions();
    lemma_selection_monotonic(d, t1, t2);
    lemma_selected_index_in_range(d, t1);
    lemma_selected_index_in_range(d, t2);
    BuildVersion::lemma_declared_ascending();
    let i1 = spec_selected_index(d, t1);
    let i2 = spec_selected_index(d, t2);
    if i1 < i2 {
        assert(WindowsVersion::spec_lt(
            BuildVersion::spec_all()[i1].spec_version(),
            BuildVersion::spec_all()[i2].spec_version(),
        ));
    }
}

/// Scans a declared list and returns the index of the last entry not
/// newer than `detected`, or 0 when none qualifies.  On a list that
/// ascends by version — as the declared lists do — the last qualifying
/// entry is the newest one.
pub fn select_index(declared: &Vec<WindowsVersion>, detected: &WindowsVersion) -> (ix: usize)
    requires
        declared.len() > 0,
    ensures
        ix < declared.len(),
        ix == spec_selected_index(declared@, *detected),
{
    proof {
        lemma_selected_index_in_range(declared@, *detected);
        assert(declared@.take(declared.len() as int) =~= declared@);
    }
    let mut i: usize = declared.len();
    while i > 0
        invariant
            i <= declared.len(),
            spec_selected_index(declared@, *detected) == spec_selected_index(
                declared@.take(i as int),
                *detected,
            ),
        decreases i,
    {
        i = i - 1;
        proof {
            assert(declared@.take(i + 1 as int).drop_last() =~= declared@.take(i as int));
            assert(declared@.take(i + 1 as int).last() == declared@[i as int]);
        }
        if declared[i].le(detected) {
            proof {
                assert(spec_selected_index(declared@.take(i + 1 as int), *detected) == i);
            }
            return i;
        }
    }
    proof {
        assert(declared@.take(0) =~= Seq::<WindowsVersion>::empty());
    }
    0
}

/// The epoch selected for a detection outcome: the newest declared epoch
/// not newer than the detected version; the oldest epoch when the system
/// is older than everything declared; the newest epoch when detection
/// failed.
pub open spec fn spec_selected_build(detected: Option<WindowsVersion>) -> BuildVersion {
    match detected {
        Option::None => BuildVersion::Build26100,
        Option::Some(t) => BuildVersion::spec_all()[spec_selected_index(
            spec_declared_versions(),
            t,
        )],
    }
}

/// Resolves the epoch to use for a detected Windows version.  Intended
/// to run once at startup; the result is then threaded to every
/// component that consults it.
pub fn select_build_version(detected: Option<WindowsVersion>) -> (r: BuildVersion)
    ensures
        r == spec_selected_build(detected),
        detected is None ==> r == BuildVersion::Build26100,
        detected matches Some(t) ==> {
            &&& (exists|i: int|
                0 <= i < spec_declared_versions().len() && #[trigger] WindowsVersion::spec_le(
                    spec_declared_versions()[i],
                    t,
                )) ==> WindowsVersion::spec_le(r.spec_version(), t)
            &&& forall|i: int|
                0 <= i < spec_declared_versions().len() && #[trigger] WindowsVersion::spec_le(
                    spec_declared_versions()[i],
                    t,
                ) ==> WindowsVersion::spec_le(spec_declared_versions()[i], r.spec_version())
            &&& (forall|i: int|
                0 <= i < spec_declared_versions().len() ==> !#[trigger] WindowsVersion::spec_le(
                    spec_declared_versions()[i],
                    t,
                )) ==> r == BuildVersion::Build10240
        },
{
    match detected {
        None => BuildVersion::Build26100,
        Some(t) => {
            let all = BuildVersion::all_build_versions();
            let mut versions: Vec<WindowsVersion> = Vec::new();
            let mut k: usize = 0;
            while k < all.len()
                invariant
                    k <= all.len(),
                    all@ == BuildVersion::spec_all(),
                    versions@.len() == k,
                    forall|i: int|
                        0 <= i < k ==> versions@[i] == #[trigger] all@[i].spec_version(),
                decreases all.len() - k,
            {
                let bv = all[k];
                versions.push(bv.version());
                k = k + 1;
            }
            proof {
                assert(versions@ =~= spec_declared_versions());
            }
            let ix = select_index(&versions, &t);
            let r = all[ix];
            proof {
                lemma_selected_index_is_last_qualifying(spec_declared_versions(), t);
                BuildVersion::lemma_declared_ascending();
                let sel = spec_selected_index(spec_declared_versions(), t);
                assert(r.spec_version() == spec_declared_versions()[sel]);
                assert forall|i: int|
                    0 <= i < spec_declared_versions().len() && #[trigger] WindowsVersion::spec_le(
                        spec_declared_versions()[i],
                        t,
                    ) implies WindowsVersion::spec_le(
                    spec_declared_versions()[i],
                    r.spec_version(),
                ) by {
                    if i < sel {
                        assert(WindowsVersion::spec_lt(
                            BuildVersion::spec_all()[i].spec_version(),
                            BuildVersion::spec_all()[sel].spec_version(),
                        ));
                    }
                }
            }
            r
        },
    }
}

} // verus!
