//! The workspace's dependency rule: crates live in tiers (`lib/`, `core/`,
//! `lana/`), and a crate may depend only on crates of its own tier or a
//! lower one.

use vstd::prelude::*;

use crate::primitives::str_starts_with;

verus! {

#[derive(Clone, Copy, Debug, PartialEq, Eq, Structural)]
pub enum Tier {
    Lib,
    Core,
    Lana,
}

/// The rank of a tier: `Lib` < `Core` < `Lana`.
pub open spec fn tier_rank(t: Tier) -> int {
    match t {
        Tier::Lib => 0,
        Tier::Core => 1,
        Tier::Lana => 2,
    }
}

#[derive(Debug)]
pub enum TierError {
    /// The path is empty.
    EmptyPath,
    /// The path lies in no tier.
    UnknownTier(String),
}

impl TierError {
    /// `"Empty path provided"`, or `"Unknown tier for path: '<path>'"`.
    pub fn message(&self) -> (s: String)
        ensures
            s@ == match self {
                TierError::EmptyPath => "Empty path provided"@,
                TierError::UnknownTier(p) => "Unknown tier for path: '"@ + p@ + "'"@,
            },
    {
        match self {
            TierError::EmptyPath => "Empty path provided".to_owned(),
            TierError::UnknownTier(p) => {
                let mut s = String::new();
                s.append("Unknown tier for path: '");
                s.append(p.as_str());
                s.append("'");
                s
            },
        }
    }
}

/// The tier a workspace-relative path belongs to, if any.
pub open spec fn tier_of(path: Seq<char>) -> Option<Tier> {
    if path.len() == 0 {
        None
    } else if path.len() >= 4 && path.take(4) == "lib/"@ {
        Some(Tier::Lib)
    } else if path.len() >= 5 && path.take(5) == "core/"@ {
        Some(Tier::Core)
    } else if path.len() >= 5 && path.take(5) == "lana/"@ {
        Some(Tier::Lana)
    } else {
        None
    }
}

/// The tier of a workspace-relative path: by its first directory.
pub fn get_tier(path: &str) -> (r: Result<Tier, TierError>)
    ensures
        r matches Ok(t) ==> tier_of(path@) == Some(t),
        r is Err <==> tier_of(path@) is None,
        path@.len() == 0 ==> r matches Err(TierError::EmptyPath),
        r matches Err(TierError::UnknownTier(p)) ==> p@ == path@,
{
    proof {
        reveal_strlit("lib/");
        reveal_strlit("core/");
        reveal_strlit("lana/");
    }
    if path.unicode_len() == 0 {
        return Err(TierError::EmptyPath);
    }
    if str_starts_with(path, "lib/") {
        Ok(Tier::Lib)
    } else if str_starts_with(path, "core/") {
        Ok(Tier::Core)
    } else if str_starts_with(path, "lana/") {
        Ok(Tier::Lana)
    } else {
        Err(TierError::UnknownTier(path.to_owned()))
    }
}

/// A crate may depend only on its own tier or a lower one.
pub fn is_valid_dependency(from_tier: Tier, to_tier: Tier) -> (b: bool)
    ensures
        b == (tier_rank(from_tier) >= tier_rank(to_tier)),
{
    let from: u8 = match from_tier {
        Tier::Lib => 0,
        Tier::Core => 1,
        Tier::Lana => 2,
    };
    let to: u8 = match to_tier {
        Tier::Lib => 0,
        Tier::Core => 1,
        Tier::Lana => 2,
    };
    from >= to
}

/// A dependency of a workspace package, with its workspace-relative path
/// when it is a path dependency.
#[derive(Debug)]
pub struct DependencyInfo {
    pub name: String,
    pub relative_path: Option<String>,
}

/// A workspace package with its workspace-relative path.
#[derive(Debug)]
pub struct PackageInfo {
    pub name: String,
    pub relative_path: String,
    pub dependencies: Vec<DependencyInfo>,
}

/// A dependency that breaks the tier rule.
#[derive(Debug)]
pub struct Violation {
    pub package: String,
    pub package_tier: Tier,
    pub dependency: String,
    pub dependency_tier: Tier,
}

/// The violation a dependency of a package in `from` gives, if any: a path
/// dependency in a known tier above `from`.
pub open spec fn dependency_violation(package: Seq<char>, from: Tier, d: DependencyInfo) -> Option<
    (Seq<char>, Tier, Seq<char>, Tier),
> {
    match d.relative_path {
        Some(p) => match tier_of(p@) {
            Some(to) => if tier_rank(from) >= tier_rank(to) {
                None
            } else {
                Some((package, from, d.name@, to))
            },
            None => None,
        },
        None => None,
    }
}

/// The violations among a package's dependencies, in order.
pub open spec fn dependency_violations(package: Seq<char>, from: Tier, deps: Seq<DependencyInfo>) -> Seq<
    (Seq<char>, Tier, Seq<char>, Tier),
>
    decreases deps.len(),
{
    if deps.len() == 0 {
        Seq::empty()
    } else {
        let before = dependency_violations(package, from, deps.drop_last());
        match dependency_violation(package, from, deps.last()) {
            Some(v) => before.push(v),
            None => before,
        }
    }
}

/// The violations of the workspace, package by package in order; packages
/// outside the tiers are skipped.
pub open spec fn workspace_violations(packages: Seq<PackageInfo>) -> Seq<
    (Seq<char>, Tier, Seq<char>, Tier),
>
    decreases packages.len(),
{
    if packages.len() == 0 {
        Seq::empty()
    } else {
        let p = packages.last();
        workspace_violations(packages.drop_last()) + match tier_of(p.relative_path@) {
            Some(from) => dependency_violations(p.name@, from, p.dependencies@),
            None => Seq::empty(),
        }
    }
}

pub open spec fn violation_view(v: Violation) -> (Seq<char>, Tier, Seq<char>, Tier) {
    (v.package@, v.package_tier, v.dependency@, v.dependency_tier)
}

/// Every dependency of the workspace that breaks the tier rule, in order.
pub fn find_violations(packages: &Vec<PackageInfo>) -> (out: Vec<Violation>)
    ensures
        out@.map_values(|v: Violation| violation_view(v)) == workspace_violations(packages@),
{
    let mut out: Vec<Violation> = Vec::new();
    let mut i: usize = 0;
    while i < packages.len()
        invariant
            i <= packages@.len(),
            out@.map_values(|v: Violation| violation_view(v)) == workspace_violations(
                packages@.take(i as int),
            ),
        decreases packages@.len() - i,
    {
        let package = &packages[i];
        assert(packages@.take(i + 1).drop_last() =~= packages@.take(i as int));
        assert(packages@.take(i + 1).last() == packages@[i as int]);
        let ghost before = out@.map_values(|v: Violation| violation_view(v));
        match get_tier(package.relative_path.as_str()) {
            Ok(tier) => {
                let mut k: usize = 0;
                let deps = &package.dependencies;
                while k < deps.len()
                    invariant
                        k <= deps@.len(),
                        out@.map_values(|v: Violation| violation_view(v)) == before
                            + dependency_violations(package.name@, tier, deps@.take(k as int)),
                    decreases deps@.len() - k,
                {
                    let d = &deps[k];
                    assert(deps@.take(k + 1).drop_last() =~= deps@.take(k as int));
                    assert(deps@.take(k + 1).last() == deps@[k as int]);
                    if let Some(p) = &d.relative_path {
                        if let Ok(dep_tier) = get_tier(p.as_str()) {
                            if !is_valid_dependency(tier, dep_tier) {
                                let ghost prev = out@;
                                out.push(
                                    Violation {
                                        package: package.name.clone(),
                                        package_tier: tier,
                                        dependency: d.name.clone(),
                                        dependency_tier: dep_tier,
                                    },
                                );
                                assert(out@.map_values(|v: Violation| violation_view(v))
                                    =~= prev.map_values(|v: Violation| violation_view(v)).push(
                                    violation_view(out@.last()),
                                ));
                            }
                        }
                    }
                    k += 1;
                }
                assert(deps@.take(deps@.len() as int) =~= deps@);
            },
            Err(_) => {
                assert(before + Seq::<(Seq<char>, Tier, Seq<char>, Tier)>::empty() =~= before);
            },
        }
        i += 1;
    }
    assert(packages@.take(packages@.len() as int) =~= packages@);
    out
}


/// `d` is a path dependency in a known tier above `from`.
pub open spec fn is_upward(from: Tier, d: DependencyInfo) -> bool {
    match d.relative_path {
        Some(p) => match tier_of(p@) {
            Some(to) => tier_rank(to) > tier_rank(from),
            None => false,
        },
        None => false,
    }
}

/// The tier of a path dependency in a known tier.
pub open spec fn dependency_tier(d: DependencyInfo) -> Tier {
    tier_of(d.relative_path->0@)->0
}

/// The violations of a package are exactly its upward dependencies, each
/// named with the package, the package's tier, the dependency and the
/// dependency's tier, in the order of the dependencies; so there are as many
/// violations as upward dependencies.
pub proof fn package_violations_are_its_upward_dependencies(
    package: Seq<char>,
    from: Tier,
    deps: Seq<DependencyInfo>,
)
    ensures
        dependency_violations(package, from, deps) =~= deps.filter(
            |d: DependencyInfo| is_upward(from, d),
        ).map_values(|d: DependencyInfo| (package, from, d.name@, dependency_tier(d))),
    decreases deps.len(),
{
    reveal(Seq::filter);
    if deps.len() > 0 {
        package_violations_are_its_upward_dependencies(package, from, deps.drop_last());
        let kept = deps.drop_last().filter(|d: DependencyInfo| is_upward(from, d));
        let f = |d: DependencyInfo| (package, from, d.name@, dependency_tier(d));
        if is_upward(from, deps.last()) {
            assert(kept.push(deps.last()).map_values(f) =~= kept.map_values(f).push(
                f(deps.last()),
            ));
        }
    }
}

proof fn lemma_upward_dependency_reported(
    package: Seq<char>,
    from: Tier,
    deps: Seq<DependencyInfo>,
    j: int,
)
    requires
        0 <= j < deps.len(),
        is_upward(from, deps[j]),
    ensures
        dependency_violations(package, from, deps).contains(
            (package, from, deps[j].name@, dependency_tier(deps[j])),
        ),
    decreases deps.len(),
{
    let v = (package, from, deps[j].name@, dependency_tier(deps[j]));
    let before = dependency_violations(package, from, deps.drop_last());
    if j == deps.len() - 1 {
        let all = before.push(v);
        assert(all[before.len() as int] == v);
    } else {
        lemma_upward_dependency_reported(package, from, deps.drop_last(), j);
        assert(deps.drop_last()[j] == deps[j]);
        let k = choose|k: int| 0 <= k < before.len() && before[k] == v;
        match dependency_violation(package, from, deps.last()) {
            Some(w) => {
                assert(before.push(w)[k] == v);
            },
            None => {},
        }
    }
}

/// Every upward dependency of every package in a tier is reported: a package
/// in tier `from` that depends on a path in a higher tier `to` gives a
/// violation naming the package, `from`, the dependency and `to`.
pub proof fn every_upward_dependency_is_reported(packages: Seq<PackageInfo>, i: int, j: int)
    requires
        0 <= i < packages.len(),
        tier_of(packages[i].relative_path@) is Some,
        0 <= j < packages[i].dependencies@.len(),
        is_upward(tier_of(packages[i].relative_path@)->0, packages[i].dependencies@[j]),
    ensures
        workspace_violations(packages).contains(
            (
                packages[i].name@,
                tier_of(packages[i].relative_path@)->0,
                packages[i].dependencies@[j].name@,
                dependency_tier(packages[i].dependencies@[j]),
            ),
        ),
    decreases packages.len(),
{
    let p = packages[i];
    let from = tier_of(p.relative_path@)->0;
    let v = (p.name@, from, p.dependencies@[j].name@, dependency_tier(p.dependencies@[j]));
    let earlier = workspace_violations(packages.drop_last());
    if i == packages.len() - 1 {
        lemma_upward_dependency_reported(p.name@, from, p.dependencies@, j);
        let own = dependency_violations(p.name@, from, p.dependencies@);
        let k = choose|k: int| 0 <= k < own.len() && own[k] == v;
        assert((earlier + own)[earlier.len() + k] == v);
    } else {
        assert(packages.drop_last()[i] == p);
        every_upward_dependency_is_reported(packages.drop_last(), i, j);
        let k = choose|k: int| 0 <= k < earlier.len() && earlier[k] == v;
        let rest = match tier_of(packages.last().relative_path@) {
            Some(t) => dependency_violations(packages.last().name@, t, packages.last().dependencies@),
            None => Seq::empty(),
        };
        assert((earlier + rest)[k] == v);
    }
}

/// Every reported violation is an upward dependency: its dependency's tier
/// is above its package's tier.
pub proof fn every_violation_goes_upward(packages: Seq<PackageInfo>, k: int)
    requires
        0 <= k < workspace_violations(packages).len(),
    ensures
        tier_rank(workspace_violations(packages)[k].3) > tier_rank(workspace_violations(packages)[k].1),
    decreases packages.len(),
{
    let earlier = workspace_violations(packages.drop_last());
    if k < earlier.len() {
        every_violation_goes_upward(packages.drop_last(), k);
        let p = packages.last();
        let rest = match tier_of(p.relative_path@) {
            Some(t) => dependency_violations(p.name@, t, p.dependencies@),
            None => Seq::empty(),
        };
        assert((earlier + rest)[k] == earlier[k]);
    } else {
        let p = packages.last();
        let from = tier_of(p.relative_path@)->0;
        package_violations_are_its_upward_dependencies(p.name@, from, p.dependencies@);
        let kept = p.dependencies@.filter(|d: DependencyInfo| is_upward(from, d));
        p.dependencies@.lemma_filter_pred(|d: DependencyInfo| is_upward(from, d), k - earlier.len());
        assert(is_upward(from, kept[k - earlier.len()]));
    }
}

/// The name `Debug` gives a tier.
pub fn tier_name(t: Tier) -> (s: &'static str)
    ensures
        s@ == match t {
            Tier::Lib => "Lib"@,
            Tier::Core => "Core"@,
            Tier::Lana => "Lana"@,
        },
{
    match t {
        Tier::Lib => "Lib",
        Tier::Core => "Core",
        Tier::Lana => "Lana",
    }
}

impl Violation {
    /// `"<package> (<tier>) cannot depend on <dependency> (<tier>)"`.
    pub fn message(&self) -> (s: String)
        ensures
            s@ == self.package@ + " ("@ + tier_name_spec(self.package_tier) + ") cannot depend on "@
                + self.dependency@ + " ("@ + tier_name_spec(self.dependency_tier) + ")"@,
    {
        let mut s = String::new();
        s.append(self.package.as_str());
        s.append(" (");
        s.append(tier_name(self.package_tier));
        s.append(") cannot depend on ");
        s.append(self.dependency.as_str());
        s.append(" (");
        s.append(tier_name(self.dependency_tier));
        s.append(")");
        s
    }
}

pub open spec fn tier_name_spec(t: Tier) -> Seq<char> {
    match t {
        Tier::Lib => "Lib"@,
        Tier::Core => "Core"@,
        Tier::Lana => "Lana"@,
    }
}

/// The tier rule allows exactly the dependencies that go to the same tier
/// or down: it is reflexive and transitive, and it forbids every upward
/// dependency.
pub proof fn tier_rule_is_a_preorder(a: Tier, b: Tier, c: Tier)
    ensures
        tier_rank(a) >= tier_rank(a),
        tier_rank(a) >= tier_rank(b) && tier_rank(b) >= tier_rank(c) ==> tier_rank(a) >= tier_rank(
            c,
        ),
        tier_rank(a) >= tier_rank(b) && tier_rank(b) >= tier_rank(a) ==> a == b,
{
}

} // verus!
