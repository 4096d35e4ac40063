//! The condition gate: a boolean expression over variables extracted from
//! a probed JSON document decides whether a target runs at all. Extraction
//! goes through the named path-extraction result, the expression through
//! the `evalexpr` crate behind a trusted declaration, and the decision is
//! pinned exactly over those names.

use vstd::prelude::*;

use crate::jsonq::{
    extract_scalar, extracted_of, json_parses, json_text_parses, JsonScalar, QueryOutcome,
};
use crate::text::{pairs_sorted_by_key, spec_strip_bom, StripBom};

use evalexpr::ContextWithMutableVariables;

verus! {

/// A gate probed before a target runs: `vars` maps variable names to path
/// queries over the document fetched from `url`, and `when` is the boolean
/// expression over those names.
pub struct Condition {
    pub url: String,
    pub vars: Vec<(String, String)>,
    pub when: String,
}

impl Condition {
    /// The ordered-map shape of `vars`: keys strictly increasing (hence
    /// unique), as iterating the configuration's ordered map yields them.
    pub open spec fn wf(&self) -> bool {
        pairs_sorted_by_key(self.vars@)
    }
}

/// A dynamically-typed variable bound into the condition expression: a
/// boolean, an integer, a float carried as its canonical decimal text, or
/// a string. Integral and fractional JSON numbers are distinguished.
pub enum CondValue {
    Bool(bool),
    Int(i64),
    Float(String),
    Str(String),
}

/// The evaluator value an extracted scalar is bound as: numbers become
/// integers where they are integral and floats otherwise.
pub open spec fn spec_scalar_cond_value(s: JsonScalar) -> CondValue {
    match s {
        JsonScalar::Bool(b) => CondValue::Bool(b),
        JsonScalar::Num { text, int_val } => match int_val {
            Some(i) => CondValue::Int(i),
            None => CondValue::Float(text),
        },
        JsonScalar::Str(t) => CondValue::Str(t),
    }
}

/// Convert an extracted scalar into an evaluator value.
pub fn scalar_to_cond_value(s: JsonScalar) -> (r: CondValue)
    ensures
        r == spec_scalar_cond_value(s),
{
    match s {
        JsonScalar::Bool(b) => CondValue::Bool(b),
        JsonScalar::Num { text, int_val } => match int_val {
            Some(i) => CondValue::Int(i),
            None => CondValue::Float(text),
        },
        JsonScalar::Str(t) => CondValue::Str(t),
    }
}

/// What the condition expression evaluates to over the given bindings; a
/// function of the expression and the bindings alone. An evaluation error
/// or a non-boolean result counts as false.
pub uninterp spec fn when_eval_of(expr: Seq<char>, vars: Seq<(Seq<char>, CondValue)>) -> bool;

pub open spec fn spec_binding_views(vars: Seq<(String, CondValue)>) -> Seq<(Seq<char>, CondValue)> {
    vars.map_values(|p: (String, CondValue)| (p.0@, p.1))
}

/// Relies on evalexpr's `eval_boolean_with_context` over a
/// `HashMapContext` holding the given variables (a boolean, an integer
/// and a string bound as themselves, a float by parsing its decimal
/// text); the result is a function of the expression and the bindings
/// alone, and an evaluation error yields false.
#[verifier::external_body]
fn eval_when(expr: &str, vars: &Vec<(String, CondValue)>) -> (r: bool)
    ensures
        r == when_eval_of(expr@, spec_binding_views(vars@)),
{
    let mut ctx: evalexpr::HashMapContext = evalexpr::HashMapContext::new();
    for (name, v) in vars.iter() {
        let ev = match v {
            CondValue::Bool(b) => evalexpr::Value::Boolean(*b),
            CondValue::Int(i) => evalexpr::Value::Int(*i),
            CondValue::Float(s) => match s.parse() {
                Ok(f) => evalexpr::Value::Float(f),
                Err(_) => evalexpr::Value::Empty,
            },
            CondValue::Str(s) => evalexpr::Value::String(s.clone()),
        };
        let _ = ctx.set_value(name.clone(), ev);
    }
    evalexpr::eval_boolean_with_context(expr, &ctx).unwrap_or(false)
}

/// Evaluate a condition expression over explicit bindings.
pub fn evaluate_when(when: &str, bindings: &Vec<(String, CondValue)>) -> (r: bool)
    ensures
        r == when_eval_of(when@, spec_binding_views(bindings@)),
{
    eval_when(when, bindings)
}

/// The bindings the configured variables yield over a document body: one
/// per variable whose path extraction found a scalar, in configuration
/// order, converted by [`spec_scalar_cond_value`].
pub open spec fn spec_bindings(body: Seq<char>, vars: Seq<(String, String)>) -> Seq<
    (Seq<char>, CondValue),
>
    decreases vars.len(),
{
    if vars.len() == 0 {
        Seq::empty()
    } else {
        let init = spec_bindings(body, vars.drop_last());
        match extracted_of(body, vars.last().1@) {
            QueryOutcome::Found(s) => init.push((vars.last().0@, spec_scalar_cond_value(s))),
            _ => init,
        }
    }
}

/// Extract each configured variable from the document body; a variable
/// whose path finds no scalar is left unbound.
fn collect_bindings(body: &str, vars: &Vec<(String, String)>) -> (r: Vec<(String, CondValue)>)
    ensures
        spec_binding_views(r@) == spec_bindings(body@, vars@),
{
    let mut bindings: Vec<(String, CondValue)> = Vec::new();
    let mut i: usize = 0;
    proof {
        assert(vars@.subrange(0, 0) =~= Seq::<(String, String)>::empty());
        assert(spec_binding_views(bindings@) =~= spec_bindings(body@, vars@.subrange(0, 0)));
    }
    while i < vars.len()
        invariant
            0 <= i <= vars@.len(),
            spec_binding_views(bindings@) == spec_bindings(body@, vars@.subrange(0, i as int)),
        decreases vars@.len() - i,
    {
        let path = &vars[i].1;
        match extract_scalar(body, path.as_str()) {
            QueryOutcome::Found(s) => {
                let name = vars[i].0.clone();
                bindings.push((name, scalar_to_cond_value(s)));
            },
            QueryOutcome::Missing => {},
            QueryOutcome::Unsupported => {},
        }
        proof {
            let prefix1 = vars@.subrange(0, i + 1);
            assert(prefix1.drop_last() =~= vars@.subrange(0, i as int));
            assert(prefix1.last() == vars@[i as int]);
            assert(spec_binding_views(bindings@) =~= spec_bindings(body@, prefix1));
        }
        i = i + 1;
    }
    proof {
        assert(vars@.subrange(0, vars@.len() as int) =~= vars@);
    }
    bindings
}

/// What a fetched body must satisfy for the target to run: the text,
/// stripped of a byte-order mark, parses as JSON, and the condition
/// expression evaluates true over the bindings its variables extract.
pub open spec fn spec_condition_eval(condition: Condition, text: Seq<char>) -> bool {
    let clean = spec_strip_bom(text);
    json_parses(clean) && when_eval_of(condition.when@, spec_bindings(clean, condition.vars@))
}

/// Evaluate a target's condition gate over the body fetched from the
/// condition's url: true exactly when a body was fetched, it parses as
/// JSON (tolerating a byte-order mark), and the expression evaluates true
/// over the extracted variables. A failed fetch, an unparseable body and
/// an expression error all yield false, and the target is skipped.
pub fn evaluate_condition(condition: &Condition, body: Option<&str>) -> (r: bool)
    requires
        condition.wf(),
    ensures
        body is None ==> r == false,
        body matches Some(t) ==> r == spec_condition_eval(*condition, t@),
{
    match body {
        None => false,
        Some(text) => {
            let clean = text.strip_bom();
            if !json_text_parses(clean.as_str()) {
                false
            } else {
                let bindings = collect_bindings(clean.as_str(), &condition.vars);
                evaluate_when(condition.when.as_str(), &bindings)
            }
        },
    }
}

} // verus!
