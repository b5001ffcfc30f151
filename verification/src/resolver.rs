use vstd::prelude::*;

verus! {

/// The identity a guest uses to request a host function: the capability
/// module's name and the export name within it.  The order of first
/// appearance in the guest's import section is significant and preserved.
pub struct ImportKey {
    pub module: String,
    pub name: String,
}

impl ImportKey {
    pub fn new(module: &str, name: &str) -> (k: ImportKey)
        ensures
            k.module@ == module@,
            k.name@ == name@,
    {
        ImportKey { module: module.to_owned(), name: name.to_owned() }
    }
}

/// What a capability module offers under one export name.  Only function
/// exports can satisfy a guest import; every other extern kind is
/// discarded by the resolver.
#[derive(Clone, Copy, Debug, PartialEq, Eq, Structural)]
pub enum ExportValue {
    /// A callable host function, identified by the engine's handle for it.
    Func(u64),
    /// Any non-function extern kind (a global, a memory, a table).
    NonFunc,
}

/// One export produced by instantiating a capability module: the module's
/// fixed name, the export's name, and the exported value.
pub struct CapabilityExport {
    pub module: String,
    pub name: String,
    pub value: ExportValue,
}

impl CapabilityExport {
    pub fn new(module: &str, name: &str, value: ExportValue) -> (e: CapabilityExport)
        ensures
            e.module@ == module@,
            e.name@ == name@,
            e.value == value,
    {
        CapabilityExport { module: module.to_owned(), name: name.to_owned(), value }
    }
}

/// A function export satisfies a guest import when their (module name,
/// export name) pairs agree.
pub open spec fn export_satisfies(e: CapabilityExport, k: ImportKey) -> bool {
    &&& e.value is Func
    &&& e.module@ == k.module@
    &&& e.name@ == k.name@
}

/// The handle of the first export, in host priority order, that satisfies
/// the import key `k`; `None` when no export does.
pub open spec fn first_match(exports: Seq<CapabilityExport>, k: ImportKey) -> Option<u64>
    decreases exports.len(),
{
    if exports.len() == 0 {
        None
    } else if export_satisfies(exports[0], k) {
        match exports[0].value {
            ExportValue::Func(h) => Some(h),
            ExportValue::NonFunc => None,
        }
    } else {
        first_match(exports.drop_first(), k)
    }
}

/// Every declared import has a satisfying export.
pub open spec fn all_satisfied(imports: Seq<ImportKey>, exports: Seq<CapabilityExport>) -> bool {
    forall|i: int| 0 <= i < imports.len() ==> first_match(exports, #[trigger] imports[i]) is Some
}

/// The resolved import vector: its entry at position i is the handle of
/// the first export satisfying the import declared at index i.
pub open spec fn resolved_vector(imports: Seq<ImportKey>, exports: Seq<CapabilityExport>) -> Seq<
    u64,
> {
    Seq::new(imports.len(), |i: int| first_match(exports, imports[i]).unwrap())
}

/// The pair `(module, name)` names the first declared import, in
/// declaration order, that no capability export satisfies.
pub open spec fn names_first_unsatisfied(
    imports: Seq<ImportKey>,
    exports: Seq<CapabilityExport>,
    module: Seq<char>,
    name: Seq<char>,
) -> bool {
    exists|i: int|
        0 <= i < imports.len() && (#[trigger] first_match(exports, imports[i])) is None && module
            == imports[i].module@ && name == imports[i].name@ && (forall|j: int|
            0 <= j < i ==> first_match(exports, #[trigger] imports[j]) is Some)
}

/// The capability modules' export lists, one per module in host priority
/// order, joined into a single prioritized export list.
pub open spec fn flat_exports(groups: Seq<Seq<CapabilityExport>>) -> Seq<CapabilityExport>
    decreases groups.len(),
{
    if groups.len() == 0 {
        Seq::empty()
    } else {
        groups[0] + flat_exports(groups.drop_first())
    }
}

/// Joins the capability modules' export lists, given one `Vec` per module
/// in host priority order, into the single export list that `resolve`
/// consumes; the modules' order, and the export order within each module,
/// are kept.
pub fn concat_exports(groups: Vec<Vec<CapabilityExport>>) -> (r: Vec<CapabilityExport>)
    ensures
        r@ == flat_exports(groups@.map_values(|g: Vec<CapabilityExport>| g@)),
{
    let ghost g0: Seq<Seq<CapabilityExport>> = groups@.map_values(
        |g: Vec<CapabilityExport>| g@,
    );
    let mut rest = groups;
    let mut r: Vec<CapabilityExport> = Vec::new();
    proof {
        assert(rest@.map_values(|g: Vec<CapabilityExport>| g@) =~= g0);
        assert(r@ + flat_exports(g0) =~= flat_exports(g0));
    }
    while rest.len() > 0
        invariant
            flat_exports(g0) == r@ + flat_exports(
                rest@.map_values(|g: Vec<CapabilityExport>| g@),
            ),
        decreases rest@.len(),
    {
        let ghost cur: Seq<Seq<CapabilityExport>> = rest@.map_values(
            |g: Vec<CapabilityExport>| g@,
        );
        let mut first = rest.remove(0);
        r.append(&mut first);
        proof {
            assert(rest@.map_values(|g: Vec<CapabilityExport>| g@) =~= cur.drop_first());
            assert(r@ + flat_exports(cur.drop_first()) =~= flat_exports(g0));
        }
    }
    proof {
        assert(r@ =~= flat_exports(g0));
    }
    r
}

/// When `first_match` finds a handle for a key, some export in the list
/// satisfies the key and carries exactly that handle.
proof fn lemma_first_match_found(exports: Seq<CapabilityExport>, k: ImportKey)
    requires
        first_match(exports, k) is Some,
    ensures
        exists|j: int|
            0 <= j < exports.len() && export_satisfies(#[trigger] exports[j], k) && exports[j].value
                == ExportValue::Func(first_match(exports, k).unwrap()),
    decreases exports.len(),
{
    if export_satisfies(exports[0], k) {
        assert(export_satisfies(exports[0], k) && exports[0].value == ExportValue::Func(
            first_match(exports, k).unwrap(),
        ));
    } else {
        lemma_first_match_found(exports.drop_first(), k);
        let j0 = choose|j: int|
            0 <= j < exports.drop_first().len() && export_satisfies(
                #[trigger] exports.drop_first()[j],
                k,
            ) && exports.drop_first()[j].value == ExportValue::Func(
                first_match(exports.drop_first(), k).unwrap(),
            );
        assert(exports[j0 + 1] == exports.drop_first()[j0]);
    }
}

/// Order preservation: whatever the order of the guest's import
/// declarations, the resolved vector has one entry per declared import,
/// and its entry at position i is the handle of a function export whose
/// (module name, export name) pair is exactly the import key declared at
/// index i.
pub proof fn lemma_resolved_entry_satisfies(
    imports: Seq<ImportKey>,
    exports: Seq<CapabilityExport>,
    i: int,
)
    requires
        all_satisfied(imports, exports),
        0 <= i < imports.len(),
    ensures
        resolved_vector(imports, exports).len() == imports.len(),
        exists|j: int|
            0 <= j < exports.len() && export_satisfies(#[trigger] exports[j], imports[i])
                && exports[j].value == ExportValue::Func(resolved_vector(imports, exports)[i]),
{
    lemma_first_match_found(exports, imports[i]);
}

/// Removing the export at position `p` leaves `first_match` unchanged for
/// any key the export does not satisfy.
proof fn lemma_first_match_skip_unsat(exports: Seq<CapabilityExport>, k: ImportKey, p: int)
    requires
        0 <= p < exports.len(),
        !export_satisfies(exports[p], k),
    ensures
        first_match(exports, k) == first_match(exports.remove(p), k),
    decreases exports.len(),
{
    if p == 0 {
        assert(exports.remove(0) =~= exports.drop_first());
    } else {
        if export_satisfies(exports[0], k) {
            assert(exports.remove(p)[0] == exports[0]);
        } else {
            assert(exports.drop_first()[p - 1] == exports[p]);
            lemma_first_match_skip_unsat(exports.drop_first(), k, p - 1);
            assert(exports.remove(p).drop_first() =~= exports.drop_first().remove(p - 1));
            assert(exports.remove(p)[0] == exports[0]);
        }
    }
}

/// Filtering: a capability export that satisfies no declared import is
/// absent from the outcome of resolution.  Removing it from the export
/// list, at whatever priority position it stood, changes neither the
/// resolved vector nor whether resolution succeeds.
pub proof fn lemma_unreferenced_export_dropped(
    imports: Seq<ImportKey>,
    exports: Seq<CapabilityExport>,
    p: int,
)
    requires
        0 <= p < exports.len(),
        forall|i: int|
            0 <= i < imports.len() ==> !export_satisfies(exports[p], #[trigger] imports[i]),
    ensures
        all_satisfied(imports, exports) == all_satisfied(imports, exports.remove(p)),
        all_satisfied(imports, exports) ==> resolved_vector(imports, exports) == resolved_vector(
            imports,
            exports.remove(p),
        ),
{
    assert forall|i: int| 0 <= i < imports.len() implies first_match(
        exports,
        #[trigger] imports[i],
    ) == first_match(exports.remove(p), imports[i]) by {
        lemma_first_match_skip_unsat(exports, imports[i], p);
    }
    if all_satisfied(imports, exports) {
        assert(resolved_vector(imports, exports) =~= resolved_vector(imports, exports.remove(p)));
    }
}

/// Failure of import resolution; fatal to runtime startup.
#[derive(Debug)]
pub enum ResolveError {
    /// The guest declares an import that no capability module provides.
    UnsatisfiedImport { module: String, name: String },
}

/// Searches the prioritized export list for the first function export
/// satisfying `k`.
fn find_first_match(exports: &Vec<CapabilityExport>, k: &ImportKey) -> (r: Option<u64>)
    ensures
        r == first_match(exports@, *k),
{
    let n = exports.len();
    let mut j: usize = 0;
    proof {
        assert(exports@.skip(0) =~= exports@);
    }
    while j < n
        invariant
            n == exports@.len(),
            j <= n,
            first_match(exports@, *k) == first_match(exports@.skip(j as int), *k),
        decreases n - j,
    {
        proof {
            assert(exports@.skip(j as int)[0] == exports@[j as int]);
            assert(exports@.skip(j as int).drop_first() =~= exports@.skip(j + 1));
        }
        let e = &exports[j];
        let is_func = match e.value {
            ExportValue::Func(_) => true,
            ExportValue::NonFunc => false,
        };
        if is_func && e.module == k.module && e.name == k.name {
            match e.value {
                ExportValue::Func(h) => {
                    return Some(h);
                },
                ExportValue::NonFunc => {
                    proof {
                        assert(false);
                    }
                    return None;
                },
            }
        }
        j = j + 1;
    }
    None
}

/// The guest's declared imports in declaration order, built once per
/// compiled guest module and immutable afterwards.
pub struct GuestImportTable {
    keys: Vec<ImportKey>,
}

impl View for GuestImportTable {
    type V = Seq<ImportKey>;

    closed spec fn view(&self) -> Seq<ImportKey> {
        self.keys@
    }
}

impl GuestImportTable {
    /// Builds the table from the keys in their order of declaration.
    pub fn from_keys(keys: Vec<ImportKey>) -> (t: GuestImportTable)
        ensures
            t@ == keys@,
    {
        GuestImportTable { keys }
    }

    /// The number of declared imports.
    pub fn len(&self) -> (n: usize)
        ensures
            n == self@.len(),
    {
        self.keys.len()
    }

    /// Reconciles the declared imports against the capability exports,
    /// given in host priority order, and produces the resolved import
    /// vector: its entry at position i is the handle of the first export
    /// satisfying the import declared at index i.  An export that no
    /// import references is dropped; an import that no export satisfies
    /// fails resolution, naming the first such import.
    pub fn resolve(&self, exports: &Vec<CapabilityExport>) -> (r: Result<Vec<u64>, ResolveError>)
        ensures
            all_satisfied(self@, exports@) ==> (r matches Ok(v) && v@ == resolved_vector(
                self@,
                exports@,
            )),
            !all_satisfied(self@, exports@) ==> (r matches Err(
                ResolveError::UnsatisfiedImport { module, name },
            ) && names_first_unsatisfied(self@, exports@, module@, name@)),
    {
        let n = self.keys.len();
        let mut out: Vec<u64> = Vec::new();
        let mut i: usize = 0;
        while i < n
            invariant
                n == self@.len(),
                i <= n,
                out@.len() == i,
                forall|j: int|
                    0 <= j < i ==> first_match(exports@, #[trigger] self@[j]) == Some(out@[j]),
            decreases n - i,
        {
            let k = &self.keys[i];
            match find_first_match(exports, k) {
                Some(h) => {
                    out.push(h);
                },
                None => {
                    return Err(
                        ResolveError::UnsatisfiedImport {
                            module: k.module.clone(),
                            name: k.name.clone(),
                        },
                    );
                },
            }
            i = i + 1;
        }
        proof {
            assert(out@ =~= resolved_vector(self@, exports@));
        }
        Ok(out)
    }
}

} // verus!
