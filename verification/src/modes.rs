//! Which mode a host binary runs in, from its `MODE` setting.
use vstd::prelude::*;
use vstd::string::StringExecFns;

verus! {

/// A service host's run mode.
#[derive(PartialEq, Eq, Structural, Clone, Copy, Debug)]
pub enum HostMode {
    /// The store component in front of MongoDB, served over gRPC.
    Store,
    /// The service component, reaching its store over gRPC.
    Svc,
    /// The composed service and store in one process.
    Abi,
}

/// The frontend's transport.
#[derive(PartialEq, Eq, Structural, Clone, Copy, Debug)]
pub enum FrontendMode {
    /// The fully composed application in one process.
    Abi,
    /// One host per service, reached over gRPC.
    Tcp,
}

/// The mode a name selects among `store`, `svc` and, where offered, `abi`.
pub open spec fn mode_named(name: Seq<char>, with_abi: bool) -> Option<HostMode> {
    if name == "store"@ {
        Some(HostMode::Store)
    } else if name == "svc"@ {
        Some(HostMode::Svc)
    } else if with_abi && name == "abi"@ {
        Some(HostMode::Abi)
    } else {
        None
    }
}

/// The host modes by name: `store` selects the store, `svc` the service and,
/// on a host that offers it, `abi` the composed mode; no other name selects
/// anything.
pub proof fn lemma_mode_names(name: Seq<char>, with_abi: bool)
    ensures
        mode_named(name, with_abi) == Some(HostMode::Store) <==> name == "store"@,
        mode_named(name, with_abi) == Some(HostMode::Svc) <==> name == "svc"@,
        mode_named(name, with_abi) == Some(HostMode::Abi) <==> with_abi && name == "abi"@,
        mode_named(name, with_abi) is None <==> !(name == "store"@ || name == "svc"@ || (with_abi && name
            == "abi"@)),
{
    reveal_strlit("store");
    reveal_strlit("svc");
    reveal_strlit("abi");
    assert("store"@.len() == 5);
    assert("svc"@.len() == 3 && "svc"@[0] == 's');
    assert("abi"@.len() == 3 && "abi"@[0] == 'a');
    assert("store"@ != "svc"@);
    assert("svc"@ != "abi"@);
    assert("store"@ != "abi"@);
}

/// The mode a `MODE` setting names (`default` when unset); an unknown name is
/// refused with `unknown MODE=<name>; expected <expected>`.
fn select(setting: Option<&str>, default: &str, with_abi: bool, expected: &str) -> (r: Result<HostMode, String>)
    ensures
        ({
            let name = match setting {
                Some(s) => s@,
                None => default@,
            };
            match mode_named(name, with_abi) {
                Some(m) => r == Ok::<HostMode, String>(m),
                None => r matches Err(e) && e@ == "unknown MODE="@ + name + "; expected "@ + expected@,
            }
        }),
{
    let name = match setting {
        Some(s) => s.to_owned(),
        None => default.to_owned(),
    };
    if name == "store".to_owned() {
        Ok(HostMode::Store)
    } else if name == "svc".to_owned() {
        Ok(HostMode::Svc)
    } else if with_abi && name == "abi".to_owned() {
        Ok(HostMode::Abi)
    } else {
        let mut e = "unknown MODE=".to_owned();
        e.append(name.as_str());
        e.append("; expected ");
        e.append(expected);
        Err(e)
    }
}

/// The mode of a host with a store and a service mode: `store` or `svc`,
/// `svc` when unset.
pub fn store_svc_mode(setting: Option<&str>) -> (r: Result<HostMode, String>)
    ensures
        ({
            let name = match setting {
                Some(s) => s@,
                None => "svc"@,
            };
            match mode_named(name, false) {
                Some(m) => r == Ok::<HostMode, String>(m),
                None => r matches Err(e) && e@ == "unknown MODE="@ + name + "; expected "@ + "store|svc"@,
            }
        }),
        setting is None ==> r == Ok::<HostMode, String>(HostMode::Svc),
        setting matches Some(s) && s@ == "svc"@ ==> r == Ok::<HostMode, String>(HostMode::Svc),
        setting matches Some(s) && s@ == "store"@ ==> r == Ok::<HostMode, String>(HostMode::Store),
        setting matches Some(s) && s@ != "svc"@ && s@ != "store"@ ==> r is Err,
{
    proof {
        match setting {
            Some(s) => lemma_mode_names(s@, false),
            None => lemma_mode_names("svc"@, false),
        }
    }
    select(setting, "svc", false, "store|svc")
}

/// The mode of the review host: `store`, `svc` or `abi`, `abi` when unset.
pub fn review_mode(setting: Option<&str>) -> (r: Result<HostMode, String>)
    ensures
        ({
            let name = match setting {
                Some(s) => s@,
                None => "abi"@,
            };
            match mode_named(name, true) {
                Some(m) => r == Ok::<HostMode, String>(m),
                None => r matches Err(e) && e@ == "unknown MODE="@ + name + "; expected "@ + "store|svc|abi"@,
            }
        }),
        setting is None ==> r == Ok::<HostMode, String>(HostMode::Abi),
        setting matches Some(s) && s@ == "svc"@ ==> r == Ok::<HostMode, String>(HostMode::Svc),
        setting matches Some(s) && s@ == "store"@ ==> r == Ok::<HostMode, String>(HostMode::Store),
        setting matches Some(s) && s@ == "abi"@ ==> r == Ok::<HostMode, String>(HostMode::Abi),
        setting matches Some(s) && s@ != "svc"@ && s@ != "store"@ && s@ != "abi"@ ==> r is Err,
{
    proof {
        match setting {
            Some(s) => lemma_mode_names(s@, true),
            None => lemma_mode_names("abi"@, true),
        }
    }
    select(setting, "abi", true, "store|svc|abi")
}

/// The frontend's mode: `abi` selects the composed host, anything else
/// (including no setting) the gRPC one.
pub fn frontend_mode(setting: Option<&str>) -> (m: FrontendMode)
    ensures
        m == (if setting matches Some(s) && s@ == "abi"@ { FrontendMode::Abi } else { FrontendMode::Tcp }),
{
    match setting {
        Some(s) => if s.to_owned() == "abi".to_owned() {
            FrontendMode::Abi
        } else {
            FrontendMode::Tcp
        },
        None => FrontendMode::Tcp,
    }
}

} // verus!
