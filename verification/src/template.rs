//! Templates and their expansion.
//!
//! A matched trigger carries a replacement text with `{{name}}`
//! placeholders and an ordered list of variables.  Expansion resolves
//! each variable in order and globally replaces its placeholder.  The
//! computations a variable may call for (the current date, a shell
//! command's output, the clipboard) are performed by external
//! collaborators outside this library; their already-trimmed outputs are
//! handed in as plain character sequences, so the whole substitution
//! logic is verified.
use vstd::prelude::*;

use crate::text::append_chars;
use crate::text::chars_copy;
use crate::text::lemma_replace_all_self;
use crate::text::replace_all;
use crate::text::replace_all_chars;

verus! {

/// The kind of computation a template variable stands for.  A kind
/// outside the supported set is kept as `Unknown`: such a variable
/// resolves to its own placeholder text, a visible fallback.
#[derive(Clone, Copy, Debug, PartialEq, Eq)]
pub enum VarKind {
    Date,
    Shell,
    Clipboard,
    Echo,
    Unknown,
}

/// Kind-specific optional parameters of a variable.
pub struct VarParams {
    /// Date format string (also the fallback text of an `echo` variable).
    pub format: Option<Vec<char>>,
    /// Shell command line.
    pub cmd: Option<Vec<char>>,
    /// Literal text of an `echo` variable.
    pub echo: Option<Vec<char>>,
}

/// A named variable of a template.
pub struct Var {
    pub name: Vec<char>,
    pub kind: VarKind,
    pub params: VarParams,
}

/// The replacement text of a trigger, with the variables its
/// placeholders refer to.
pub struct Trigger {
    pub replace: Vec<char>,
    pub vars: Vec<Var>,
}

/// The placeholder text `{{name}}` of a variable name.
pub open spec fn placeholder(name: Seq<char>) -> Seq<char> {
    seq!['{', '{'] + name + seq!['}', '}']
}

/// The date format used when a `date` variable configures none.
pub open spec fn default_date_format() -> Seq<char> {
    seq!['%', 'Y', '-', '%', 'm', '-', '%', 'd']
}

/// The format string a `date` variable hands to the date collaborator.
pub open spec fn date_format_of(v: Var) -> Seq<char> {
    match v.params.format {
        Some(f) => f@,
        None => default_date_format(),
    }
}

/// The value a variable resolves to, given the external collaborator
/// output `ext` (ignored by the kinds that call for no collaborator).
pub open spec fn resolved_value(v: Var, ext: Seq<char>) -> Seq<char> {
    match v.kind {
        VarKind::Date => ext,
        VarKind::Shell => match v.params.cmd {
            Some(_) => ext,
            None => Seq::empty(),
        },
        VarKind::Clipboard => ext,
        VarKind::Echo => match v.params.echo {
            Some(e) => e@,
            None => match v.params.format {
                Some(f) => f@,
                None => Seq::empty(),
            },
        },
        VarKind::Unknown => placeholder(v.name@),
    }
}

/// One expansion step: every occurrence of the variable's placeholder is
/// replaced by its resolved value.
pub open spec fn expand_step(cur: Seq<char>, v: Var, ext: Seq<char>) -> Seq<char> {
    replace_all(cur, placeholder(v.name@), resolved_value(v, ext))
}

/// Full expansion: the variables are applied to `cur` one at a time, in
/// order, each with its own external collaborator output.
pub open spec fn expand_from(cur: Seq<char>, vars: Seq<Var>, exts: Seq<Seq<char>>) -> Seq<char>
    decreases vars.len(),
{
    if vars.len() == 0 {
        cur
    } else {
        expand_from(expand_step(cur, vars[0], exts[0]), vars.skip(1), exts.skip(1))
    }
}

/// The external invocation a variable calls for.
#[derive(Debug, PartialEq, Eq)]
pub enum ExternalRequest {
    /// Format the current date with the given format string.
    RunDate(Vec<char>),
    /// Run the given command line through the shell.
    RunShell(Vec<char>),
    /// Read the clipboard.
    ReadClipboard,
    /// No external work: the variable resolves from its own parameters.
    NoRequest,
}

/// Which request is the right one for a variable.
pub open spec fn is_request_for(v: Var, r: ExternalRequest) -> bool {
    match v.kind {
        VarKind::Date => match r {
            ExternalRequest::RunDate(f) => f@ == date_format_of(v),
            _ => false,
        },
        VarKind::Shell => match v.params.cmd {
            Some(c) => match r {
                ExternalRequest::RunShell(s) => s@ == c@,
                _ => false,
            },
            None => r is NoRequest,
        },
        VarKind::Clipboard => r is ReadClipboard,
        VarKind::Echo => r is NoRequest,
        VarKind::Unknown => r is NoRequest,
    }
}

/// Executable form of [`default_date_format`].
pub fn default_date_format_chars() -> (r: Vec<char>)
    ensures
        r@ == default_date_format(),
{
    let mut r: Vec<char> = Vec::new();
    r.push('%');
    r.push('Y');
    r.push('-');
    r.push('%');
    r.push('m');
    r.push('-');
    r.push('%');
    r.push('d');
    proof {
        assert(r@ =~= default_date_format());
    }
    r
}

/// Executable form of [`placeholder`]: the text `{{name}}`.
pub fn placeholder_chars(name: &Vec<char>) -> (r: Vec<char>)
    ensures
        r@ == placeholder(name@),
{
    let mut r: Vec<char> = Vec::new();
    r.push('{');
    r.push('{');
    append_chars(&mut r, name);
    r.push('}');
    r.push('}');
    proof {
        assert(r@ =~= placeholder(name@));
    }
    r
}

impl Var {
    /// The external invocation this variable needs before expansion.
    pub fn request(&self) -> (r: ExternalRequest)
        ensures
            is_request_for(*self, r),
    {
        match self.kind {
            VarKind::Date => {
                let fmt = match &self.params.format {
                    Some(f) => chars_copy(f),
                    None => default_date_format_chars(),
                };
                ExternalRequest::RunDate(fmt)
            },
            VarKind::Shell => match &self.params.cmd {
                Some(c) => ExternalRequest::RunShell(chars_copy(c)),
                None => ExternalRequest::NoRequest,
            },
            VarKind::Clipboard => ExternalRequest::ReadClipboard,
            VarKind::Echo => ExternalRequest::NoRequest,
            VarKind::Unknown => ExternalRequest::NoRequest,
        }
    }
}

/// Executable form of [`resolved_value`].
pub fn resolve_value(v: &Var, ext: &Vec<char>) -> (r: Vec<char>)
    ensures
        r@ == resolved_value(*v, ext@),
{
    match v.kind {
        VarKind::Date => chars_copy(ext),
        VarKind::Shell => match &v.params.cmd {
            Some(_) => chars_copy(ext),
            None => Vec::new(),
        },
        VarKind::Clipboard => chars_copy(ext),
        VarKind::Echo => match &v.params.echo {
            Some(e) => chars_copy(e),
            None => match &v.params.format {
                Some(f) => chars_copy(f),
                None => Vec::new(),
            },
        },
        VarKind::Unknown => placeholder_chars(&v.name),
    }
}

impl Trigger {
    /// Expand the replacement text: for each variable in order, every
    /// occurrence of its `{{name}}` placeholder is replaced by the
    /// variable's resolved value.  `externals` holds, for each variable
    /// in order, the (already trimmed) output of the collaborator the
    /// variable calls for; it is ignored for variables that call for
    /// none.
    pub fn expand(&self, externals: &Vec<Vec<char>>) -> (r: Vec<char>)
        requires
            externals@.len() == self.vars@.len(),
        ensures
            r@ == expand_from(self.replace@, self.vars@, externals.deep_view()),
    {
        let ghost exts = externals.deep_view();
        let mut result = chars_copy(&self.replace);
        let mut i: usize = 0;
        proof {
            assert(self.vars@.skip(0) =~= self.vars@);
            assert(exts.skip(0) =~= exts);
        }
        while i < self.vars.len()
            invariant
                externals@.len() == self.vars@.len(),
                exts == externals.deep_view(),
                i <= self.vars@.len(),
                expand_from(self.replace@, self.vars@, exts) == expand_from(
                    result@,
                    self.vars@.skip(i as int),
                    exts.skip(i as int),
                ),
            decreases self.vars@.len() - i,
        {
            let v = &self.vars[i];
            let pat = placeholder_chars(&v.name);
            let value = resolve_value(v, &externals[i]);
            proof {
                assert(exts[i as int] == externals@[i as int].deep_view());
                assert(externals@[i as int].deep_view() =~= externals@[i as int]@);
                assert(self.vars@.skip(i as int)[0] == self.vars@[i as int]);
                assert(exts.skip(i as int)[0] == exts[i as int]);
                assert(self.vars@.skip(i as int).skip(1) =~= self.vars@.skip(i + 1));
                assert(exts.skip(i as int).skip(1) =~= exts.skip(i + 1));
            }
            result = replace_all_chars(&result, &pat, &value);
            i = i + 1;
        }
        proof {
            assert(self.vars@.skip(i as int) =~= Seq::<Var>::empty());
            assert(exts.skip(i as int) =~= Seq::<Seq<char>>::empty());
        }
        result
    }
}

/// Variables contributed by the global scope are prepended to a
/// trigger's own variable list at configuration-build time, so they are
/// available for lookup without any special-casing in the expansion
/// algorithm itself.
pub fn merge_vars(globals: Vec<Var>, own: Vec<Var>) -> (r: Vec<Var>)
    ensures
        r@ == globals@ + own@,
{
    let mut merged = globals;
    let mut rest = own;
    merged.append(&mut rest);
    merged
}

/// Expansion is deterministic: two expansions of the same template with
/// the same resolved variable values yield identical output text.
pub proof fn lemma_expand_deterministic(
    t: Trigger,
    exts: Seq<Seq<char>>,
    r1: Seq<char>,
    r2: Seq<char>,
)
    requires
        r1 == expand_from(t.replace@, t.vars@, exts),
        r2 == expand_from(t.replace@, t.vars@, exts),
    ensures
        r1 == r2,
{
}

/// A variable of unknown kind resolves to its own placeholder text, so
/// its expansion step leaves the text unmodified.
pub proof fn lemma_unknown_kind_is_noop(cur: Seq<char>, v: Var, ext: Seq<char>)
    requires
        v.kind is Unknown,
    ensures
        expand_step(cur, v, ext) == cur,
{
    lemma_replace_all_self(cur, placeholder(v.name@));
}

/// A template whose variables are all of unknown kind expands to its
/// replacement text unchanged: every placeholder stays as it stands.
pub proof fn lemma_all_unknown_expansion_identity(
    cur: Seq<char>,
    vars: Seq<Var>,
    exts: Seq<Seq<char>>,
)
    requires
        forall|i: int| 0 <= i < vars.len() ==> vars[i].kind is Unknown,
    ensures
        expand_from(cur, vars, exts) == cur,
    decreases vars.len(),
{
    if vars.len() == 0 {
    } else {
        lemma_unknown_kind_is_noop(cur, vars[0], exts[0]);
        lemma_all_unknown_expansion_identity(cur, vars.skip(1), exts.skip(1));
    }
}

} // verus!
