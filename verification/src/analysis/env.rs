//! The scoped environment: what each name is bound to, scope by scope.
//!
//! Each scope keeps its variables and its functions in a hash map. What the
//! contracts speak of is the mathematical map that each stands for.

use vstd::prelude::*;
use vstd::hash_map::StringHashMap;
use vstd::string::*;
use crate::source::{ConstType, Ident, IdentView};
use crate::parser::idents_view;

verus! {

/// The signature of a function: its parameters and what it returns.
#[derive(Clone, Debug, PartialEq)]
pub struct FnSig {
    pub name: Ident,
    pub args: Vec<Ident>,
    pub ret: ConstType,
}

/// What the function table holds for one function.
pub struct FnSigView {
    pub args: Seq<IdentView>,
    pub ret: ConstType,
}

impl FnSig {
    /// The signature without the name it is filed under.
    pub open spec fn sig(&self) -> FnSigView {
        FnSigView { args: idents_view(self.args@), ret: self.ret }
    }
}

/// One lexical scope: the variables and the functions declared in it.
pub struct ScopeView {
    pub vars: Map<Seq<char>, ConstType>,
    pub funcs: Map<IdentView, FnSigView>,
}

impl ScopeView {
    /// A scope in which nothing is declared.
    pub open spec fn empty() -> ScopeView {
        ScopeView { vars: Map::empty(), funcs: Map::empty() }
    }
}

/// The mathematical value of an [`Env`]: its scopes, the root first and the
/// current scope last. There is always a root.
pub struct EnvView {
    pub frames: Seq<ScopeView>,
}

/// The index of the innermost scope of `frames` that binds `name`.
pub open spec fn innermost_var(frames: Seq<ScopeView>, name: Seq<char>) -> Option<int>
    decreases frames.len(),
{
    if frames.len() == 0 {
        None
    } else if frames.last().vars.contains_key(name) {
        Some(frames.len() - 1)
    } else {
        innermost_var(frames.drop_last(), name)
    }
}

/// The index of the innermost scope of `frames` that files a signature
/// under `name`.
pub open spec fn innermost_function(frames: Seq<ScopeView>, name: IdentView) -> Option<int>
    decreases frames.len(),
{
    if frames.len() == 0 {
        None
    } else if frames.last().funcs.contains_key(name) {
        Some(frames.len() - 1)
    } else {
        innermost_function(frames.drop_last(), name)
    }
}

/// The innermost scope that binds a name is one of the scopes, and binds it.
pub proof fn lemma_innermost_var(frames: Seq<ScopeView>, name: Seq<char>)
    ensures
        match innermost_var(frames, name) {
            Some(i) => 0 <= i < frames.len() && frames[i].vars.contains_key(name),
            None => true,
        },
    decreases frames.len(),
{
    if frames.len() > 0 && !frames.last().vars.contains_key(name) {
        lemma_innermost_var(frames.drop_last(), name);
    }
}

/// The innermost scope that files a signature under a name is one of the
/// scopes, and files it.
pub proof fn lemma_innermost_function(frames: Seq<ScopeView>, name: IdentView)
    ensures
        match innermost_function(frames, name) {
            Some(i) => 0 <= i < frames.len() && frames[i].funcs.contains_key(name),
            None => true,
        },
    decreases frames.len(),
{
    if frames.len() > 0 && !frames.last().funcs.contains_key(name) {
        lemma_innermost_function(frames.drop_last(), name);
    }
}

impl ScopeView {
    /// This scope with `name` bound to `ty`.
    pub open spec fn bind_var(self, name: Seq<char>, ty: ConstType) -> ScopeView {
        ScopeView { vars: self.vars.insert(name, ty), ..self }
    }

    /// This scope with `sig` filed under `name`.
    pub open spec fn bind_function(self, name: IdentView, sig: FnSigView) -> ScopeView {
        ScopeView { funcs: self.funcs.insert(name, sig), ..self }
    }
}

impl EnvView {
    /// The environment of a fresh analyzer: one empty root scope.
    pub open spec fn root() -> EnvView {
        EnvView { frames: seq![ScopeView::empty()] }
    }

    /// How many scopes are open, the root included.
    pub open spec fn depth(self) -> nat {
        self.frames.len()
    }

    /// The scope that declarations go to.
    pub open spec fn current(self) -> ScopeView {
        self.frames.last()
    }

    /// Whether any open scope binds `name`.
    pub open spec fn has(self, name: Seq<char>) -> bool {
        innermost_var(self.frames, name) is Some
    }

    /// Whether the current scope itself binds `name`.
    pub open spec fn has_local(self, name: Seq<char>) -> bool {
        self.current().vars.contains_key(name)
    }

    /// The type of the innermost binding of `name`.
    pub open spec fn get_ty(self, name: Seq<char>) -> Option<ConstType> {
        match innermost_var(self.frames, name) {
            Some(i) => Some(self.frames[i].vars[name]),
            None => None,
        }
    }

    /// Binds `name` in the current scope, hiding any outer binding.
    pub open spec fn add(self, name: Seq<char>, ty: ConstType) -> EnvView {
        EnvView {
            frames: self.frames.update(self.frames.len() - 1, self.current().bind_var(name, ty)),
        }
    }

    /// Rebinds the innermost binding of `name`; binds it in the current
    /// scope where there is none.
    pub open spec fn modify(self, name: Seq<char>, ty: ConstType) -> EnvView {
        match innermost_var(self.frames, name) {
            Some(i) => EnvView { frames: self.frames.update(i, self.frames[i].bind_var(name, ty)) },
            None => self.add(name, ty),
        }
    }

    /// Files a signature under `name` in the current scope.
    pub open spec fn push_function(self, name: IdentView, sig: FnSigView) -> EnvView {
        EnvView {
            frames: self.frames.update(
                self.frames.len() - 1,
                self.current().bind_function(name, sig),
            ),
        }
    }

    /// The innermost signature filed under `name`.
    pub open spec fn get_function(self, name: IdentView) -> Option<FnSigView> {
        match innermost_function(self.frames, name) {
            Some(i) => Some(self.frames[i].funcs[name]),
            None => None,
        }
    }

    /// Records `ret` as the return type of the innermost signature filed
    /// under `name`; files `args` and `ret` in the current scope where
    /// there is none.
    pub open spec fn settle_function(
        self,
        name: IdentView,
        args: Seq<IdentView>,
        ret: ConstType,
    ) -> EnvView {
        match innermost_function(self.frames, name) {
            Some(i) => EnvView {
                frames: self.frames.update(
                    i,
                    self.frames[i].bind_function(
                        name,
                        FnSigView { args: self.frames[i].funcs[name].args, ret },
                    ),
                ),
            },
            None => self.push_function(name, FnSigView { args, ret }),
        }
    }

    /// Binding, rebinding and filing open and close no scope.
    pub proof fn lemma_depth_kept(
        self,
        name: Seq<char>,
        ty: ConstType,
        fname: IdentView,
        sig: FnSigView,
    )
        requires
            self.depth() >= 1,
        ensures
            self.add(name, ty).depth() == self.depth(),
            self.modify(name, ty).depth() == self.depth(),
            self.push_function(fname, sig).depth() == self.depth(),
            self.settle_function(fname, sig.args, sig.ret).depth() == self.depth(),
    {
        lemma_innermost_var(self.frames, name);
        lemma_innermost_function(self.frames, fname);
    }

    /// Opens a scope inside the current one.
    pub open spec fn child(self) -> EnvView {
        EnvView { frames: self.frames.push(ScopeView::empty()) }
    }

    /// Closes the current scope. The root stays open.
    pub open spec fn parent(self) -> EnvView {
        if self.frames.len() > 1 {
            EnvView { frames: self.frames.drop_last() }
        } else {
            self
        }
    }
}

/// Whether two environments have as many scopes and, scope by scope, the
/// same function tables.
pub open spec fn same_functions(a: EnvView, b: EnvView) -> bool {
    &&& a.frames.len() == b.frames.len()
    &&& forall|i: int|
        0 <= i < a.frames.len() ==> (#[trigger] a.frames[i]).funcs == b.frames[i].funcs
}

/// Scopes with the same function tables have the same innermost scope for
/// every name.
proof fn lemma_same_tables_lookup(a: Seq<ScopeView>, b: Seq<ScopeView>, name: IdentView)
    requires
        a.len() == b.len(),
        forall|i: int| 0 <= i < a.len() ==> (#[trigger] a[i]).funcs == b[i].funcs,
    ensures
        innermost_function(a, name) == innermost_function(b, name),
    decreases a.len(),
{
    if a.len() > 0 {
        assert(a.last().funcs == b.last().funcs);
        let shorter = a.drop_last();
        assert forall|i: int| 0 <= i < shorter.len() implies (#[trigger] shorter[i]).funcs
            == b.drop_last()[i].funcs by {
            assert(a[i].funcs == b[i].funcs);
        }
        lemma_same_tables_lookup(a.drop_last(), b.drop_last(), name);
    }
}

/// Environments with the same function tables resolve every name alike.
pub proof fn lemma_same_functions(a: EnvView, b: EnvView, name: IdentView)
    requires
        same_functions(a, b),
    ensures
        a.get_function(name) == b.get_function(name),
{
    lemma_same_tables_lookup(a.frames, b.frames, name);
    lemma_innermost_function(a.frames, name);
}

/// Whether every function that `a` resolves, `b` resolves too, and with
/// the same parameters.
pub open spec fn keeps_signatures(a: EnvView, b: EnvView) -> bool {
    forall|name: IdentView| #[trigger]
        a.get_function(name) is Some ==> b.get_function(name) is Some && b.get_function(
            name,
        )->Some_0.args == a.get_function(name)->Some_0.args
}

/// Filing a signature in one scope moves the innermost scope of no name
/// that the scope filed already, and of no other name.
proof fn lemma_table_rebound(
    frames: Seq<ScopeView>,
    i: int,
    name: IdentView,
    sig: FnSigView,
    other: IdentView,
)
    requires
        0 <= i < frames.len(),
        other != name || frames[i].funcs.contains_key(name),
    ensures
        innermost_function(frames.update(i, frames[i].bind_function(name, sig)), other)
            == innermost_function(frames, other),
    decreases frames.len(),
{
    let after = frames.update(i, frames[i].bind_function(name, sig));
    if i == frames.len() - 1 {
        assert(after.drop_last() =~= frames.drop_last());
    } else {
        assert(after.drop_last() =~= frames.drop_last().update(
            i,
            frames[i].bind_function(name, sig),
        ));
        lemma_table_rebound(frames.drop_last(), i, name, sig, other);
    }
}

impl EnvView {
    /// Filing a signature under one name leaves every other name resolved
    /// as before, and resolves the name itself to the signature filed.
    pub proof fn lemma_push_function(self, name: IdentView, sig: FnSigView, other: IdentView)
        requires
            self.depth() >= 1,
        ensures
            self.push_function(name, sig).get_function(name) == Some(sig),
            other != name ==> self.push_function(name, sig).get_function(other)
                == self.get_function(other),
    {
        let last = self.frames.len() - 1;
        let after = self.frames.update(last, self.current().bind_function(name, sig));
        assert(after.last().funcs.contains_key(name));
        if other != name {
            lemma_table_rebound(self.frames, last, name, sig, other);
            lemma_innermost_function(self.frames, other);
        }
    }

    /// Settling the return type of a function keeps the parameters of every
    /// function that was resolved before.
    pub proof fn lemma_settle_function(self, name: IdentView, args: Seq<IdentView>, ret: ConstType)
        requires
            self.depth() >= 1,
        ensures
            keeps_signatures(self, self.settle_function(name, args, ret)),
            self.settle_function(name, args, ret).get_function(name) is Some,
    {
        let after = self.settle_function(name, args, ret);
        lemma_innermost_function(self.frames, name);
        match innermost_function(self.frames, name) {
            Some(i) => {
                let sig = FnSigView { args: self.frames[i].funcs[name].args, ret };
                assert forall|other: IdentView| #[trigger]
                    self.get_function(other) is Some implies after.get_function(other) is Some
                    && after.get_function(other)->Some_0.args == self.get_function(
                    other,
                )->Some_0.args by {
                    lemma_table_rebound(self.frames, i, name, sig, other);
                    lemma_innermost_function(self.frames, other);
                }
                lemma_table_rebound(self.frames, i, name, sig, name);
            },
            None => {
                let sig = FnSigView { args, ret };
                assert forall|other: IdentView| #[trigger]
                    self.get_function(other) is Some implies after.get_function(other) is Some
                    && after.get_function(other)->Some_0.args == self.get_function(
                    other,
                )->Some_0.args by {
                    self.lemma_push_function(name, sig, other);
                }
                self.lemma_push_function(name, sig, name);
            },
        }
    }
}

/// One scope as stored: its variables by name, and its functions by a key
/// that spells the whole identifier.
struct Scope {
    vars: StringHashMap<ConstType>,
    funcs: StringHashMap<FnSig>,
}

/// The letter that an annotation is filed under.
spec fn tag_text(tag: Option<ConstType>) -> Seq<char> {
    match tag {
        None => "-"@,
        Some(ConstType::Int) => "i"@,
        Some(ConstType::Float) => "f"@,
        Some(ConstType::Str) => "s"@,
        Some(ConstType::Bool) => "b"@,
        Some(ConstType::Void) => "v"@,
        Some(ConstType::Dynamic) => "d"@,
    }
}

/// The key that an identifier is filed under: the letter of its annotation
/// before its text.
spec fn key_text(id: IdentView) -> Seq<char> {
    tag_text(id.tag) + id.val
}

/// Two identifiers with the same key are the same.
proof fn lemma_key_text(a: IdentView, b: IdentView)
    requires
        key_text(a) == key_text(b),
    ensures
        a == b,
{
    reveal_strlit("-");
    reveal_strlit("i");
    reveal_strlit("f");
    reveal_strlit("s");
    reveal_strlit("b");
    reveal_strlit("v");
    reveal_strlit("d");
    assert(tag_text(a.tag).len() == 1 && tag_text(b.tag).len() == 1);
    assert(key_text(a)[0] == tag_text(a.tag)[0]);
    assert(key_text(b)[0] == tag_text(b.tag)[0]);
    assert(a.tag == b.tag);
    assert(a.val =~= key_text(a).subrange(1, key_text(a).len() as int));
    assert(b.val =~= key_text(b).subrange(1, key_text(b).len() as int));
}

/// The function table that the stored signatures stand for.
spec fn funcs_of(m: Map<Seq<char>, FnSig>) -> Map<IdentView, FnSigView> {
    Map::new(
        |id: IdentView| m.contains_key(key_text(id)) && m[key_text(id)].name@ == id,
        |id: IdentView| m[key_text(id)].sig(),
    )
}

impl View for Scope {
    type V = ScopeView;

    closed spec fn view(&self) -> ScopeView {
        ScopeView { vars: self.vars@, funcs: funcs_of(self.funcs@) }
    }
}

/// The letter that an annotation is filed under.
fn tag_letter(tag: Option<ConstType>) -> (s: &'static str)
    ensures
        s@ == tag_text(tag),
{
    match tag {
        None => "-",
        Some(ConstType::Int) => "i",
        Some(ConstType::Float) => "f",
        Some(ConstType::Str) => "s",
        Some(ConstType::Bool) => "b",
        Some(ConstType::Void) => "v",
        Some(ConstType::Dynamic) => "d",
    }
}

/// The key that `id` is filed under.
fn key_of(id: &Ident) -> (key: String)
    ensures
        key@ == key_text(id@),
{
    String::from_str(tag_letter(id.tag)).concat(id.val.as_str())
}

impl Scope {
    /// A scope in which nothing is declared.
    fn new() -> (s: Scope)
        ensures
            s@ == ScopeView::empty(),
    {
        let s = Scope { vars: StringHashMap::new(), funcs: StringHashMap::new() };
        assert(funcs_of(s.funcs@) =~= Map::empty());
        s
    }

    /// The kind that this scope binds `name` to, if it binds it.
    fn var(&self, name: &String) -> (r: Option<ConstType>)
        ensures
            r is Some <==> self@.vars.contains_key(name@),
            r matches Some(ty) ==> ty == self@.vars[name@],
    {
        match self.vars.get(name.as_str()) {
            Some(ty) => Some(*ty),
            None => None,
        }
    }

    /// The signature that this scope files under `name`, if it files one.
    fn function(&self, name: &Ident) -> (r: Option<&FnSig>)
        ensures
            r is Some <==> self@.funcs.contains_key(name@),
            r matches Some(f) ==> f.name@ == name@ && f.sig() == self@.funcs[name@],
    {
        let key = key_of(name);
        match self.funcs.get(key.as_str()) {
            Some(f) => {
                if f.name.same(name) {
                    Some(f)
                } else {
                    None
                }
            },
            None => None,
        }
    }

    /// Binds `name` to `ty` in this scope.
    fn bind_var(&mut self, name: &String, ty: ConstType)
        ensures
            final(self)@ == old(self)@.bind_var(name@, ty),
    {
        self.vars.insert(name.clone(), ty);
    }

    /// Files `sig` in this scope under its name.
    fn bind_function(&mut self, sig: FnSig)
        ensures
            final(self)@ == old(self)@.bind_function(sig.name@, sig.sig()),
    {
        let key = key_of(&sig.name);
        let ghost before = self.funcs@;
        self.funcs.insert(key, sig);
        proof {
            let after = self.funcs@;
            assert forall|id: IdentView| #[trigger]
                key_text(id) == key_text(sig.name@) implies id == sig.name@ by {
                lemma_key_text(id, sig.name@);
            }
            assert(funcs_of(after) =~= funcs_of(before).insert(sig.name@, sig.sig()));
        }
    }

    /// Sets the return type of the signature filed under `name`.
    fn settle(&mut self, name: &Ident, ret: ConstType)
        requires
            old(self)@.funcs.contains_key(name@),
        ensures
            final(self)@ == old(self)@.bind_function(
                name@,
                FnSigView { args: old(self)@.funcs[name@].args, ret },
            ),
    {
        let args = match self.function(name) {
            Some(f) => duplicate_idents(&f.args),
            None => Vec::new(),
        };
        self.bind_function(FnSig { name: name.duplicate(), args, ret });
    }
}

/// The scoped environment of an analyzer: the root scope and, inside it,
/// the scopes opened since, the current one last.
pub struct Env {
    root: Scope,
    inner: Vec<Scope>,
}

impl View for Env {
    type V = EnvView;

    closed spec fn view(&self) -> EnvView {
        EnvView {
            frames: Seq::new(
                (self.inner.len() + 1) as nat,
                |i: int|
                    if i == 0 {
                        self.root@
                    } else {
                        self.inner[i - 1]@
                    },
            ),
        }
    }
}

impl Env {
    /// An environment always has its root scope.
    pub proof fn lemma_rooted(&self)
        ensures
            self@.depth() >= 1,
    {
    }

    /// An environment with an empty root scope.
    pub fn new() -> (env: Env)
        ensures
            env@ == EnvView::root(),
    {
        let env = Env { root: Scope::new(), inner: Vec::new() };
        assert(env@.frames =~= EnvView::root().frames);
        env
    }

    /// How many scopes are open, the root included.
    pub fn depth(&self) -> (n: usize)
        requires
            self@.depth() <= usize::MAX,
        ensures
            n == self@.depth(),
            n >= 1,
    {
        self.inner.len() + 1
    }

    /// The scope at `i`, counted from the root.
    fn frame(&self, i: usize) -> (s: &Scope)
        requires
            i <= self.inner.len(),
        ensures
            s@ == self@.frames[i as int],
    {
        if i == 0 {
            &self.root
        } else {
            &self.inner[i - 1]
        }
    }

    /// The index of the innermost scope that binds `name`.
    fn find_var(&self, name: &String) -> (r: Option<usize>)
        ensures
            match r {
                Some(i) => innermost_var(self@.frames, name@) == Some(i as int) && i
                    <= self.inner.len() && self@.frames[i as int].vars.contains_key(name@),
                None => innermost_var(self@.frames, name@) is None,
            },
    {
        let mut i: usize = self.inner.len();
        assert(self@.frames.take(i + 1) =~= self@.frames);
        loop
            invariant
                i <= self.inner.len(),
                innermost_var(self@.frames, name@) == innermost_var(
                    self@.frames.take(i + 1),
                    name@,
                ),
            decreases i,
        {
            assert(self@.frames.take(i + 1).drop_last() =~= self@.frames.take(i as int));
            if self.frame(i).var(name).is_some() {
                return Some(i);
            }
            if i == 0 {
                assert(innermost_var(self@.frames.take(0), name@) is None);
                return None;
            }
            i = i - 1;
        }
    }

    /// The index of the innermost scope that files a signature under `name`.
    fn find_function(&self, name: &Ident) -> (r: Option<usize>)
        ensures
            match r {
                Some(i) => innermost_function(self@.frames, name@) == Some(i as int) && i
                    <= self.inner.len() && self@.frames[i as int].funcs.contains_key(name@),
                None => innermost_function(self@.frames, name@) is None,
            },
    {
        let mut i: usize = self.inner.len();
        assert(self@.frames.take(i + 1) =~= self@.frames);
        loop
            invariant
                i <= self.inner.len(),
                innermost_function(self@.frames, name@) == innermost_function(
                    self@.frames.take(i + 1),
                    name@,
                ),
            decreases i,
        {
            assert(self@.frames.take(i + 1).drop_last() =~= self@.frames.take(i as int));
            if self.frame(i).function(name).is_some() {
                return Some(i);
            }
            if i == 0 {
                assert(innermost_function(self@.frames.take(0), name@) is None);
                return None;
            }
            i = i - 1;
        }
    }

    /// Binds `name` in the scope at `i`.
    fn bind_var_at(&mut self, i: usize, name: &String, ty: ConstType)
        requires
            i <= old(self).inner.len(),
        ensures
            final(self)@.frames == old(self)@.frames.update(
                i as int,
                old(self)@.frames[i as int].bind_var(name@, ty),
            ),
    {
        if i == 0 {
            self.root.bind_var(name, ty);
        } else {
            self.inner[i - 1].bind_var(name, ty);
        }
        assert(self@.frames =~= old(self)@.frames.update(
            i as int,
            old(self)@.frames[i as int].bind_var(name@, ty),
        ));
    }

    /// Whether any open scope binds `name`.
    pub fn has(&self, name: &String) -> (b: bool)
        ensures
            b == self@.has(name@),
    {
        self.find_var(name).is_some()
    }

    /// Whether the current scope itself binds `name`.
    pub fn has_local(&self, name: &String) -> (b: bool)
        ensures
            b == self@.has_local(name@),
    {
        self.frame(self.inner.len()).var(name).is_some()
    }

    /// The type of the innermost binding of `name`.
    pub fn get_ty(&self, name: &String) -> (ty: Option<ConstType>)
        ensures
            ty == self@.get_ty(name@),
    {
        match self.find_var(name) {
            Some(i) => self.frame(i).var(name),
            None => None,
        }
    }

    /// Binds `name` in the current scope, hiding any outer binding.
    pub fn add(&mut self, name: &String, ty: ConstType)
        ensures
            final(self)@ == old(self)@.add(name@, ty),
    {
        self.bind_var_at(self.inner.len(), name, ty);
    }

    /// Rebinds the innermost binding of `name`; binds it in the current
    /// scope where there is none.
    pub fn modify(&mut self, name: &String, ty: ConstType)
        ensures
            final(self)@ == old(self)@.modify(name@, ty),
    {
        match self.find_var(name) {
            Some(i) => self.bind_var_at(i, name, ty),
            None => self.add(name, ty),
        }
    }

    /// Files the signature `args -> ret` under `name` in the current scope.
    pub fn push_function(&mut self, name: Ident, args: Vec<Ident>, ret: ConstType)
        ensures
            final(self)@ == old(self)@.push_function(
                name@,
                FnSigView { args: idents_view(args@), ret },
            ),
    {
        let last = self.inner.len();
        if last == 0 {
            self.root.bind_function(FnSig { name, args, ret });
        } else {
            self.inner[last - 1].bind_function(FnSig { name, args, ret });
        }
        assert(self@.frames =~= old(self)@.push_function(
            name@,
            FnSigView { args: idents_view(args@), ret },
        ).frames);
    }

    /// The innermost signature filed under `name`.
    pub fn get_function(&self, name: &Ident) -> (sig: Option<&FnSig>)
        ensures
            match sig {
                Some(f) => self@.get_function(name@) == Some(f.sig()) && f.name@ == name@,
                None => self@.get_function(name@) is None,
            },
    {
        match self.find_function(name) {
            Some(i) => self.frame(i).function(name),
            None => None,
        }
    }

    /// Records `ret` as the return type of the innermost signature filed
    /// under `name`; files `args` and `ret` in the current scope where
    /// there is none.
    pub fn settle_function(&mut self, name: &Ident, args: &Vec<Ident>, ret: ConstType)
        ensures
            final(self)@ == old(self)@.settle_function(name@, idents_view(args@), ret),
    {
        match self.find_function(name) {
            Some(i) => {
                if i == 0 {
                    self.root.settle(name, ret);
                } else {
                    self.inner[i - 1].settle(name, ret);
                }
                assert(self@.frames =~= old(self)@.settle_function(
                    name@,
                    idents_view(args@),
                    ret,
                ).frames);
            },
            None => {
                self.push_function(name.duplicate(), duplicate_idents(args), ret);
            },
        }
    }

    /// Opens a scope inside the current one.
    pub fn child(&mut self)
        ensures
            final(self)@ == old(self)@.child(),
    {
        self.inner.push(Scope::new());
        assert(self@.frames =~= old(self)@.child().frames);
    }

    /// Closes the current scope and says whether there was one to close:
    /// the root stays open.
    pub fn parent(&mut self) -> (closed: bool)
        ensures
            final(self)@ == old(self)@.parent(),
            closed == (old(self)@.depth() > 1),
    {
        if self.inner.len() > 0 {
            self.inner.pop();
            assert(self@.frames =~= old(self)@.parent().frames);
            true
        } else {
            false
        }
    }
}

/// Copies a run of identifiers.
pub fn duplicate_idents(ids: &Vec<Ident>) -> (r: Vec<Ident>)
    ensures
        idents_view(r@) == idents_view(ids@),
{
    let mut r: Vec<Ident> = Vec::new();
    let mut i: usize = 0;
    while i < ids.len()
        invariant
            i <= ids.len(),
            r.len() == i,
            forall|j: int| 0 <= j < i ==> r[j]@ == ids[j]@,
        decreases ids.len() - i,
    {
        r.push(ids[i].duplicate());
        i = i + 1;
    }
    assert(idents_view(r@) =~= idents_view(ids@));
    r
}

} // verus!
