//! The import whitelist a module must pass before instantiation.

use vstd::prelude::*;

use crate::errors::ExecError;

verus! {

/// One import a module declares: the module name and the item name.
#[derive(Clone, PartialEq, Eq, Debug)]
pub struct ImportRef {
    pub import_module: String,
    pub import_name: String,
}

/// Whether one import is allowed: any WASI preview-1 item, or exactly
/// `env.memory` or `env.table`.  Nothing else, in particular no function
/// import from `env`.
pub open spec fn spec_import_allowed(m: Seq<char>, n: Seq<char>) -> bool {
    ||| m == "wasi_snapshot_preview1"@
    ||| (m == "env"@ && (n == "memory"@ || n == "table"@))
}

/// Whether a whole import list is allowed.
pub open spec fn spec_imports_allowed(imports: Seq<ImportRef>) -> bool {
    forall|i: int|
        0 <= i < imports.len() ==> spec_import_allowed(
            #[trigger] imports[i].import_module@,
            imports[i].import_name@,
        )
}

/// Check a module's imports against the whitelist: accepted if and only
/// if every import is allowed; otherwise the first offending pair is
/// named in the error.
pub fn check_imports(imports: &Vec<ImportRef>) -> (r: Result<(), ExecError>)
    ensures
        r is Ok <==> spec_imports_allowed(imports@),
        r matches Err(e) ==> exists|i: int|
            {
                &&& 0 <= i < imports@.len()
                &&& !spec_import_allowed(
                    #[trigger] imports@[i].import_module@,
                    imports@[i].import_name@,
                )
                &&& forall|j: int|
                    0 <= j < i ==> spec_import_allowed(
                        #[trigger] imports@[j].import_module@,
                        imports@[j].import_name@,
                    )
                &&& e == (ExecError::UnauthorizedImport {
                    import_module: imports@[i].import_module,
                    import_name: imports@[i].import_name,
                })
            },
{
    let wasi = String::from_str("wasi_snapshot_preview1");
    let env = String::from_str("env");
    let memory = String::from_str("memory");
    let table = String::from_str("table");
    let mut i: usize = 0;
    while i < imports.len()
        invariant
            0 <= i <= imports@.len(),
            wasi@ == "wasi_snapshot_preview1"@,
            env@ == "env"@,
            memory@ == "memory"@,
            table@ == "table"@,
            forall|j: int|
                0 <= j < i ==> spec_import_allowed(
                    #[trigger] imports@[j].import_module@,
                    imports@[j].import_name@,
                ),
        decreases imports@.len() - i,
    {
        let imp = &imports[i];
        let allowed = if imp.import_module.eq(&wasi) {
            true
        } else if imp.import_module.eq(&env) {
            imp.import_name.eq(&memory) || imp.import_name.eq(&table)
        } else {
            false
        };
        if !allowed {
            return Err(
                ExecError::UnauthorizedImport {
                    import_module: imp.import_module.clone(),
                    import_name: imp.import_name.clone(),
                },
            );
        }
        i += 1;
    }
    Ok(())
}

/// Sandbox containment of the loader: a module that imports anything
/// from `env` other than `memory` or `table` — `env.print` and
/// `env.fd_write` among them — or anything from a module outside the
/// whitelist, is refused by `check_imports`, so it never reaches
/// instantiation.
pub proof fn lemma_unauthorized_import_rejected(imports: Seq<ImportRef>, i: int)
    requires
        0 <= i < imports.len(),
        !spec_import_allowed(imports[i].import_module@, imports[i].import_name@),
    ensures
        !spec_imports_allowed(imports),
{
}

} // verus!
