use vstd::prelude::*;

use crate::model::{Config, CredentialsProfile, DeployProfile};
use crate::store::{
    credentials_file_read, credentials_file_valid, deploy_file_read, deploy_file_valid, get_creds,
    get_deploy_configs,
};

verus! {

/// Why the stored profiles could not be turned into configurations.
#[derive(Debug, Clone)]
pub enum ResolveError {
    /// The credential-profile file does not exist or cannot be read.
    CredentialsFileMissing,
    /// The credential-profile file is not a valid store.
    CredentialsFileInvalid,
    /// The deploy-profile file does not exist or cannot be read.
    DeployFileMissing,
    /// The deploy-profile file is not a valid store.
    DeployFileInvalid,
    /// A row names no credential profile while the store does not hold exactly one.
    AmbiguousDefaultCredential { deploy_config: String },
    /// A row names a credential profile that the store does not hold.
    UnresolvedCredentialAlias { credential: String, deploy_config: String },
}

/// The position of the last credential profile called `name`, or -1 when there is none.
pub open spec fn profile_index(store: Seq<(String, CredentialsProfile)>, name: Seq<char>) -> int
    decreases store.len(),
{
    if store.len() == 0 {
        -1
    } else if store.last().0@ == name {
        store.len() - 1
    } else {
        profile_index(store.drop_last(), name)
    }
}

/// The position of the credential profile a row draws on: the one it names, or the
/// only one of the store when it names none; -1 when there is no such profile.
pub open spec fn row_source(store: Seq<(String, CredentialsProfile)>, row: DeployProfile) -> int {
    match row.credential_profile {
        None => if store.len() == 1 {
            0
        } else {
            -1
        },
        Some(name) => profile_index(store, name@),
    }
}

/// The configuration made of a credential profile and a row.
pub open spec fn config_of(p: CredentialsProfile, row: DeployProfile) -> Config {
    Config {
        credentials: p.credentials,
        region: row.region,
        cloud_provider: p.cloud_provider,
        vm_type: row.vm_type,
    }
}

/// The error reported for a row whose credential profile cannot be found.
pub open spec fn row_error(deploy_name: String, row: DeployProfile) -> ResolveError {
    match row.credential_profile {
        None => ResolveError::AmbiguousDefaultCredential { deploy_config: deploy_name },
        Some(name) => ResolveError::UnresolvedCredentialAlias {
            credential: name,
            deploy_config: deploy_name,
        },
    }
}

/// The resolution of one row of the deploy profile `deploy_name`.
pub open spec fn resolve_row_spec(
    store: Seq<(String, CredentialsProfile)>,
    deploy_name: String,
    row: DeployProfile,
) -> Result<Config, ResolveError> {
    let i = row_source(store, row);
    if 0 <= i < store.len() {
        Ok(config_of(store[i].1, row))
    } else {
        Err(row_error(deploy_name, row))
    }
}

/// The resolution of the rows of a deploy profile: one configuration per row, in
/// order, or the error of the first row that fails.
pub open spec fn resolve_rows_spec(
    store: Seq<(String, CredentialsProfile)>,
    deploy_name: String,
    rows: Seq<DeployProfile>,
) -> Result<Seq<Config>, ResolveError>
    decreases rows.len(),
{
    if rows.len() == 0 {
        Ok(Seq::empty())
    } else {
        match resolve_rows_spec(store, deploy_name, rows.drop_last()) {
            Err(e) => Err(e),
            Ok(cs) => match resolve_row_spec(store, deploy_name, rows.last()) {
                Ok(c) => Ok(cs.push(c)),
                Err(e) => Err(e),
            },
        }
    }
}

/// The resolution of all deploy profiles, in order, or the error of the first
/// profile that fails.
pub open spec fn resolve_all_spec(
    store: Seq<(String, CredentialsProfile)>,
    deploys: Seq<(String, Vec<DeployProfile>)>,
) -> Result<Seq<(String, Seq<Config>)>, ResolveError>
    decreases deploys.len(),
{
    if deploys.len() == 0 {
        Ok(Seq::empty())
    } else {
        match resolve_all_spec(store, deploys.drop_last()) {
            Err(e) => Err(e),
            Ok(all) => match resolve_rows_spec(store, deploys.last().0, deploys.last().1@) {
                Ok(cs) => Ok(all.push((deploys.last().0, cs))),
                Err(e) => Err(e),
            },
        }
    }
}

/// The resolved profiles as names and sequences of configurations.
pub open spec fn resolved_view(v: Seq<(String, Vec<Config>)>) -> Seq<(String, Seq<Config>)> {
    Seq::new(v.len(), |i: int| (v[i].0, v[i].1@))
}

proof fn lemma_profile_index_range(store: Seq<(String, CredentialsProfile)>, name: Seq<char>)
    ensures
        -1 <= profile_index(store, name) < store.len(),
        profile_index(store, name) >= 0 ==> store[profile_index(store, name)].0@ == name,
    decreases store.len(),
{
    if store.len() > 0 && store.last().0@ != name {
        lemma_profile_index_range(store.drop_last(), name);
    }
}

proof fn lemma_rows_error_persists(
    store: Seq<(String, CredentialsProfile)>,
    deploy_name: String,
    rows: Seq<DeployProfile>,
    k: int,
)
    requires
        0 <= k <= rows.len(),
        resolve_rows_spec(store, deploy_name, rows.take(k)) is Err,
    ensures
        resolve_rows_spec(store, deploy_name, rows) == resolve_rows_spec(
            store,
            deploy_name,
            rows.take(k),
        ),
    decreases rows.len(),
{
    if k == rows.len() {
        assert(rows.take(k) =~= rows);
    } else {
        assert(rows.drop_last().take(k) =~= rows.take(k));
        lemma_rows_error_persists(store, deploy_name, rows.drop_last(), k);
    }
}

proof fn lemma_all_error_persists(
    store: Seq<(String, CredentialsProfile)>,
    deploys: Seq<(String, Vec<DeployProfile>)>,
    k: int,
)
    requires
        0 <= k <= deploys.len(),
        resolve_all_spec(store, deploys.take(k)) is Err,
    ensures
        resolve_all_spec(store, deploys) == resolve_all_spec(store, deploys.take(k)),
    decreases deploys.len(),
{
    if k == deploys.len() {
        assert(deploys.take(k) =~= deploys);
    } else {
        assert(deploys.drop_last().take(k) =~= deploys.take(k));
        lemma_all_error_persists(store, deploys.drop_last(), k);
    }
}

/// Whether the store holds a credential profile called `name`.
pub open spec fn store_has(store: Seq<(String, CredentialsProfile)>, name: Seq<char>) -> bool {
    exists|i: int| 0 <= i < store.len() && (#[trigger] store[i]).0@ == name
}

proof fn lemma_store_has_index(store: Seq<(String, CredentialsProfile)>, name: Seq<char>)
    ensures
        store_has(store, name) <==> profile_index(store, name) >= 0,
{
    lemma_profile_index_range(store, name);
    if store_has(store, name) {
        let i = choose|i: int| 0 <= i < store.len() && (#[trigger] store[i]).0@ == name;
        lemma_index_found(store, name, i);
    }
}

proof fn lemma_index_found(store: Seq<(String, CredentialsProfile)>, name: Seq<char>, i: int)
    requires
        0 <= i < store.len(),
        store[i].0@ == name,
    ensures
        profile_index(store, name) >= i,
    decreases store.len(),
{
    if store.last().0@ != name {
        lemma_index_found(store.drop_last(), name, i);
    }
}

proof fn lemma_rows_resolve(
    store: Seq<(String, CredentialsProfile)>,
    deploy_name: String,
    rows: Seq<DeployProfile>,
)
    requires
        forall|j: int|
            0 <= j < rows.len() ==> 0 <= row_source(store, #[trigger] rows[j]) < store.len(),
    ensures
        resolve_rows_spec(store, deploy_name, rows) is Ok,
        resolve_rows_spec(store, deploy_name, rows)->Ok_0.len() == rows.len(),
        forall|j: int|
            0 <= j < rows.len() ==> resolve_rows_spec(store, deploy_name, rows)->Ok_0[j]
                == config_of(store[row_source(store, rows[j])].1, #[trigger] rows[j]),
    decreases rows.len(),
{
    if rows.len() > 0 {
        let prefix = rows.drop_last();
        assert forall|j: int| 0 <= j < prefix.len() implies 0 <= row_source(
            store,
            #[trigger] prefix[j],
        ) < store.len() by {
            assert(prefix[j] == rows[j]);
        }
        lemma_rows_resolve(store, deploy_name, prefix);
        assert(rows.last() == rows[rows.len() - 1]);
        let all = resolve_rows_spec(store, deploy_name, rows)->Ok_0;
        assert forall|j: int| 0 <= j < rows.len() implies all[j] == config_of(
            store[row_source(store, rows[j])].1,
            #[trigger] rows[j],
        ) by {
            if j < prefix.len() {
                assert(prefix[j] == rows[j]);
            }
        }
    }
}

/// A deploy profile whose rows all name credential profiles held by the store resolves
/// to one configuration per row, in the order of the rows, each made of the row and
/// of the profile it names.
pub proof fn lemma_named_rows_resolve(
    store: Seq<(String, CredentialsProfile)>,
    deploy_name: String,
    rows: Seq<DeployProfile>,
)
    requires
        forall|j: int|
            0 <= j < rows.len() ==> (#[trigger] rows[j]).credential_profile is Some && store_has(
                store,
                rows[j].credential_profile->Some_0@,
            ),
    ensures
        resolve_rows_spec(store, deploy_name, rows) is Ok,
        resolve_rows_spec(store, deploy_name, rows)->Ok_0.len() == rows.len(),
        forall|j: int|
            0 <= j < rows.len() ==> {
                let i = profile_index(store, rows[j].credential_profile->Some_0@);
                &&& 0 <= i < store.len()
                &&& store[i].0@ == rows[j].credential_profile->Some_0@
                &&& resolve_rows_spec(store, deploy_name, rows)->Ok_0[j] == config_of(
                    store[i].1,
                    #[trigger] rows[j],
                )
            },
{
    assert forall|j: int| 0 <= j < rows.len() implies 0 <= row_source(
        store,
        #[trigger] rows[j],
    ) < store.len() by {
        lemma_store_has_index(store, rows[j].credential_profile->Some_0@);
        lemma_profile_index_range(store, rows[j].credential_profile->Some_0@);
    }
    lemma_rows_resolve(store, deploy_name, rows);
    assert forall|j: int| 0 <= j < rows.len() implies {
        let i = profile_index(store, (#[trigger] rows[j]).credential_profile->Some_0@);
        &&& 0 <= i < store.len()
        &&& store[i].0@ == rows[j].credential_profile->Some_0@
    } by {
        lemma_store_has_index(store, rows[j].credential_profile->Some_0@);
        lemma_profile_index_range(store, rows[j].credential_profile->Some_0@);
    }
}

/// A row that names no credential profile resolves exactly when the store holds a single
/// profile, and then draws on it; otherwise it fails as an ambiguous default.
pub proof fn lemma_default_row(
    store: Seq<(String, CredentialsProfile)>,
    deploy_name: String,
    row: DeployProfile,
)
    requires
        row.credential_profile is None,
    ensures
        resolve_row_spec(store, deploy_name, row) is Ok <==> store.len() == 1,
        store.len() == 1 ==> resolve_row_spec(store, deploy_name, row) == Ok::<
            Config,
            ResolveError,
        >(config_of(store[0].1, row)),
        store.len() != 1 ==> resolve_row_spec(store, deploy_name, row) == Err::<
            Config,
            ResolveError,
        >(ResolveError::AmbiguousDefaultCredential { deploy_config: deploy_name }),
{
}

/// A deploy profile whose rows name no credential profile resolves exactly when the store
/// holds a single profile; otherwise it fails as an ambiguous default.
pub proof fn lemma_default_profile(
    store: Seq<(String, CredentialsProfile)>,
    deploy_name: String,
    rows: Seq<DeployProfile>,
)
    requires
        rows.len() > 0,
        forall|j: int| 0 <= j < rows.len() ==> (#[trigger] rows[j]).credential_profile is None,
    ensures
        resolve_rows_spec(store, deploy_name, rows) is Ok <==> store.len() == 1,
        store.len() != 1 ==> resolve_rows_spec(store, deploy_name, rows) == Err::<
            Seq<Config>,
            ResolveError,
        >(ResolveError::AmbiguousDefaultCredential { deploy_config: deploy_name }),
{
    if store.len() == 1 {
        lemma_rows_resolve(store, deploy_name, rows);
    } else {
        let first = rows.take(1);
        assert(first.drop_last() =~= Seq::<DeployProfile>::empty());
        assert(first.last() == rows[0]);
        assert(resolve_rows_spec(store, deploy_name, first.drop_last()) is Ok);
        assert(resolve_row_spec(store, deploy_name, rows[0]) is Err);
        assert(resolve_rows_spec(store, deploy_name, first) is Err);
        lemma_rows_error_persists(store, deploy_name, rows, 1);
    }
}

/// A row that names a credential profile absent from the store makes its deploy profile
/// fail with that name, once the rows before it resolve.
pub proof fn lemma_unresolved_alias(
    store: Seq<(String, CredentialsProfile)>,
    deploy_name: String,
    rows: Seq<DeployProfile>,
    j: int,
)
    requires
        0 <= j < rows.len(),
        rows[j].credential_profile is Some,
        !store_has(store, rows[j].credential_profile->Some_0@),
        resolve_rows_spec(store, deploy_name, rows.take(j)) is Ok,
    ensures
        resolve_rows_spec(store, deploy_name, rows) == Err::<Seq<Config>, ResolveError>(
            ResolveError::UnresolvedCredentialAlias {
                credential: rows[j].credential_profile->Some_0,
                deploy_config: deploy_name,
            },
        ),
{
    lemma_store_has_index(store, rows[j].credential_profile->Some_0@);
    assert(rows.take(j + 1).drop_last() =~= rows.take(j));
    assert(rows.take(j + 1).last() == rows[j]);
    lemma_rows_error_persists(store, deploy_name, rows, j + 1);
}

/// When one deploy profile fails to resolve, the resolution of all of them fails: no
/// profile is handed on partly resolved.
pub proof fn lemma_failure_spoils_all(
    store: Seq<(String, CredentialsProfile)>,
    deploys: Seq<(String, Vec<DeployProfile>)>,
    k: int,
)
    requires
        0 <= k < deploys.len(),
        resolve_rows_spec(store, deploys[k].0, deploys[k].1@) is Err,
    ensures
        resolve_all_spec(store, deploys) is Err,
{
    assert(deploys.take(k + 1).drop_last() =~= deploys.take(k));
    assert(deploys.take(k + 1).last() == deploys[k]);
    lemma_all_error_persists(store, deploys, k + 1);
}

/// Finds the last credential profile called `name`.
fn find_profile(store: &Vec<(String, CredentialsProfile)>, name: &String) -> (r: Option<usize>)
    ensures
        match r {
            Some(i) => i < store.len() && i == profile_index(store@, name@),
            None => profile_index(store@, name@) == -1,
        },
{
    let mut i: usize = store.len();
    proof {
        assert(store@.take(i as int) =~= store@);
    }
    while i > 0
        invariant
            i <= store.len(),
            profile_index(store@, name@) == profile_index(store@.take(i as int), name@),
        decreases i,
    {
        let hit = store[i - 1].0 == *name;
        proof {
            assert(store@.take(i as int).drop_last() =~= store@.take(i - 1));
        }
        if hit {
            return Some(i - 1);
        }
        i = i - 1;
    }
    None
}

/// Resolves one row of the deploy profile `deploy_name`.
fn resolve_row(
    store: &Vec<(String, CredentialsProfile)>,
    deploy_name: &String,
    row: &DeployProfile,
) -> (r: Result<Config, ResolveError>)
    ensures
        r == resolve_row_spec(store@, *deploy_name, *row),
{
    let source = match &row.credential_profile {
        None => if store.len() == 1 {
            Some(0)
        } else {
            None
        },
        Some(name) => find_profile(store, name),
    };
    proof {
        if row.credential_profile is Some {
            lemma_profile_index_range(store@, row.credential_profile->Some_0@);
        }
    }
    match source {
        Some(i) => {
            let p = &store[i].1;
            Ok(
                Config {
                    credentials: p.credentials.duplicate(),
                    region: row.region.clone(),
                    cloud_provider: p.cloud_provider.clone(),
                    vm_type: row.vm_type.clone(),
                },
            )
        },
        None => match &row.credential_profile {
            None => Err(ResolveError::AmbiguousDefaultCredential { deploy_config: deploy_name.clone() }),
            Some(name) => Err(
                ResolveError::UnresolvedCredentialAlias {
                    credential: name.clone(),
                    deploy_config: deploy_name.clone(),
                },
            ),
        },
    }
}

/// Resolves the rows of the deploy profile `deploy_name` against the credential store:
/// one configuration per row, in the order of the rows, or the error of the first row
/// whose credential profile cannot be found.
pub fn resolve_profile(
    store: &Vec<(String, CredentialsProfile)>,
    deploy_name: &String,
    rows: &Vec<DeployProfile>,
) -> (r: Result<Vec<Config>, ResolveError>)
    ensures
        match r {
            Ok(v) => resolve_rows_spec(store@, *deploy_name, rows@) == Ok::<
                Seq<Config>,
                ResolveError,
            >(v@),
            Err(e) => resolve_rows_spec(store@, *deploy_name, rows@) == Err::<
                Seq<Config>,
                ResolveError,
            >(e),
        },
{
    let mut out: Vec<Config> = Vec::new();
    let mut i: usize = 0;
    while i < rows.len()
        invariant
            i <= rows.len(),
            resolve_rows_spec(store@, *deploy_name, rows@.take(i as int)) == Ok::<
                Seq<Config>,
                ResolveError,
            >(out@),
        decreases rows.len() - i,
    {
        let c = resolve_row(store, deploy_name, &rows[i]);
        proof {
            assert(rows@.take(i + 1).drop_last() =~= rows@.take(i as int));
        }
        match c {
            Ok(c) => {
                out.push(c);
            },
            Err(e) => {
                proof {
                    lemma_rows_error_persists(store@, *deploy_name, rows@, i + 1);
                }
                return Err(e);
            },
        }
        i = i + 1;
    }
    proof {
        assert(rows@.take(rows.len() as int) =~= rows@);
    }
    Ok(out)
}

/// Resolves every deploy profile against the credential store, keeping the order of the
/// profiles and of their rows. Fails with the error of the first row that cannot be
/// resolved, and then yields no configuration at all.
pub fn get_config(
    store: &Vec<(String, CredentialsProfile)>,
    deploys: &Vec<(String, Vec<DeployProfile>)>,
) -> (r: Result<Vec<(String, Vec<Config>)>, ResolveError>)
    ensures
        match r {
            Ok(v) => resolve_all_spec(store@, deploys@) == Ok::<
                Seq<(String, Seq<Config>)>,
                ResolveError,
            >(resolved_view(v@)),
            Err(e) => resolve_all_spec(store@, deploys@) == Err::<
                Seq<(String, Seq<Config>)>,
                ResolveError,
            >(e),
        },
{
    let mut out: Vec<(String, Vec<Config>)> = Vec::new();
    let mut i: usize = 0;
    proof {
        assert(deploys@.take(0) =~= Seq::<(String, Vec<DeployProfile>)>::empty());
        assert(resolved_view(out@) =~= Seq::<(String, Seq<Config>)>::empty());
    }
    while i < deploys.len()
        invariant
            i <= deploys.len(),
            resolve_all_spec(store@, deploys@.take(i as int)) == Ok::<
                Seq<(String, Seq<Config>)>,
                ResolveError,
            >(resolved_view(out@)),
        decreases deploys.len() - i,
    {
        let name = &deploys[i].0;
        let rows = &deploys[i].1;
        let resolved = resolve_profile(store, name, rows);
        proof {
            assert(deploys@.take(i + 1).drop_last() =~= deploys@.take(i as int));
            assert(deploys@.take(i + 1).last() == deploys@[i as int]);
        }
        match resolved {
            Ok(cs) => {
                let ghost before = out@;
                out.push((name.clone(), cs));
                proof {
                    assert(resolved_view(out@) =~= resolved_view(before).push(
                        (deploys@[i as int].0, cs@),
                    ));
                }
            },
            Err(e) => {
                proof {
                    lemma_all_error_persists(store@, deploys@, i + 1);
                }
                return Err(e);
            },
        }
        i = i + 1;
    }
    proof {
        assert(deploys@.take(deploys.len() as int) =~= deploys@);
    }
    Ok(out)
}

/// Resolves the stores given as the texts of their files (`None` for a file that is
/// missing): a missing or invalid credential-profile file, then a missing or invalid
/// deploy-profile file, fail with an error of their own; otherwise every deploy profile
/// is resolved against the credential profiles that the file holds.
pub fn resolve(credentials_text: Option<&str>, deploy_text: Option<&str>) -> (r: Result<
    Vec<(String, Vec<Config>)>,
    ResolveError,
>)
    ensures
        match credentials_text {
            None => r == Err::<Vec<(String, Vec<Config>)>, ResolveError>(
                ResolveError::CredentialsFileMissing,
            ),
            Some(c) => if !credentials_file_valid(c@) {
                r == Err::<Vec<(String, Vec<Config>)>, ResolveError>(
                    ResolveError::CredentialsFileInvalid,
                )
            } else {
                match deploy_text {
                    None => r == Err::<Vec<(String, Vec<Config>)>, ResolveError>(
                        ResolveError::DeployFileMissing,
                    ),
                    Some(d) => if !deploy_file_valid(d@) {
                        r == Err::<Vec<(String, Vec<Config>)>, ResolveError>(
                            ResolveError::DeployFileInvalid,
                        )
                    } else {
                        exists|
                            store: Seq<(String, CredentialsProfile)>,
                            deploys: Seq<(String, Vec<DeployProfile>)>,
                        |
                            {
                                &&& credentials_file_read(c@, store)
                                &&& deploy_file_read(d@, deploys)
                                &&& match r {
                                    Ok(v) => resolve_all_spec(store, deploys) == Ok::<
                                        Seq<(String, Seq<Config>)>,
                                        ResolveError,
                                    >(resolved_view(v@)),
                                    Err(e) => resolve_all_spec(store, deploys) == Err::<
                                        Seq<(String, Seq<Config>)>,
                                        ResolveError,
                                    >(e),
                                }
                            }
                    },
                }
            },
        },
{
    let c = match credentials_text {
        None => {
            return Err(ResolveError::CredentialsFileMissing);
        },
        Some(c) => c,
    };
    let store = match get_creds(c) {
        Ok(store) => store,
        Err(e) => {
            return Err(e);
        },
    };
    let d = match deploy_text {
        None => {
            return Err(ResolveError::DeployFileMissing);
        },
        Some(d) => d,
    };
    let deploys = match get_deploy_configs(d) {
        Ok(deploys) => deploys,
        Err(e) => {
            return Err(e);
        },
    };
    let r = get_config(&store, &deploys);
    proof {
        let ghost s = store@;
        let ghost p = deploys@;
        assert(credentials_file_read(c@, s));
        assert(deploy_file_read(d@, p));
    }
    r
}

} // verus!
