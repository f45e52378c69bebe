//! What is generated for a described handle type.
//!
//! Every type gets its handle struct with the pointer conversions. The other
//! items depend on what the description holds: an accessor for the display
//! name, a lazily resolved function table with its typed handle conversions,
//! a class binding, and the attachment of each capability.

use vstd::prelude::*;
use vstd::string::*;
use crate::generator::input::{
    IdentOrExpr,
    IdentOrExprView,
    ObjectInput,
    ObjectInputView,
    ParseError,
    Span,
    Verdict,
    input_outcome,
    parse_spec,
    texts,
};
use crate::generator::token::Token;

verus! {

/// One generated item, or group of items, of a handle type.
#[derive(Debug, PartialEq, Eq)]
pub enum Fragment {
    /// The copyable handle struct around one opaque pointer, and its
    /// conversions from and to a raw pointer. The conversions are those of
    /// [`crate::api::ptr::Ptr`], of which
    /// [`crate::api::ptr::lemma_from_ptr_to_ptr`] holds: wrapping a handle's
    /// pointer again gives the handle.
    Handle { object: String },
    /// The accessor that returns the display name.
    InternalName { object: String, name: String },
    /// The table slot named `slot`, initially empty, the conversions between
    /// the handle type and the typed handle, and the accessor that fills the
    /// slot from `source` on first use. The slot is a
    /// [`crate::api::table::TableSlot`]: its first resolution returns what
    /// the source reads, and every later one returns that table again
    /// ([`crate::api::table::lemma_resolved_idempotent`],
    /// [`crate::api::table::lemma_first_resolutions_agree`]). The two types
    /// are runs within the group at position `section` of the description.
    FunctionTable {
        object: String,
        slot: String,
        section: usize,
        handle: Span,
        functions: Span,
        source: IdentOrExpr,
    },
    /// The class binding: the class is looked up under the key `class`.
    StaticClass { object: String, class: String },
    /// The attachment of each capability, in order.
    Impls { object: String, capabilities: Vec<String> },
}

pub enum FragmentView {
    Handle { object: Seq<char> },
    InternalName { object: Seq<char>, name: Seq<char> },
    FunctionTable {
        object: Seq<char>,
        slot: Seq<char>,
        section: usize,
        handle: Span,
        functions: Span,
        source: IdentOrExprView,
    },
    StaticClass { object: Seq<char>, class: Seq<char> },
    Impls { object: Seq<char>, capabilities: Seq<Seq<char>> },
}

impl View for Fragment {
    type V = FragmentView;

    open spec fn view(&self) -> FragmentView {
        match self {
            Fragment::Handle { object } => FragmentView::Handle { object: object@ },
            Fragment::InternalName { object, name } => FragmentView::InternalName {
                object: object@,
                name: name@,
            },
            Fragment::FunctionTable {
                object,
                slot,
                section,
                handle,
                functions,
                source,
            } => FragmentView::FunctionTable {
                object: object@,
                slot: slot@,
                section: *section,
                handle: *handle,
                functions: *functions,
                source: source@,
            },
            Fragment::StaticClass { object, class } => FragmentView::StaticClass {
                object: object@,
                class: class@,
            },
            Fragment::Impls { object, capabilities } => FragmentView::Impls {
                object: object@,
                capabilities: texts(capabilities@),
            },
        }
    }
}

/// The views of a sequence of fragments.
pub open spec fn fragment_views(fragments: Seq<Fragment>) -> Seq<FragmentView> {
    Seq::new(fragments.len(), |i: int| fragments[i]@)
}

/// The name of the table slot of the type `object`.
pub open spec fn slot_name_spec(object: Seq<char>) -> Seq<char> {
    "__"@ + object + "_fns"@
}

/// The fragments of a description, in the order in which they are generated:
/// the handle, then the display name, the function table and the class
/// binding as far as the description holds them, then the capabilities if
/// there are any.
pub open spec fn plan_spec(input: ObjectInputView) -> Seq<FragmentView> {
    seq![FragmentView::Handle { object: input.object }] + (match input.name {
        Some(name) => seq![FragmentView::InternalName { object: input.object, name }],
        None => Seq::empty(),
    }) + (match input.functions {
        Some(f) => seq![
            FragmentView::FunctionTable {
                object: input.object,
                slot: slot_name_spec(input.object),
                section: f.section,
                handle: f.handle,
                functions: f.functions,
                source: f.field,
            },
        ],
        None => Seq::empty(),
    }) + (match input.class {
        Some(class) => seq![FragmentView::StaticClass { object: input.object, class }],
        None => Seq::empty(),
    }) + (if input.impls.len() > 0 {
        seq![FragmentView::Impls { object: input.object, capabilities: input.impls }]
    } else {
        Seq::empty()
    })
}

/// The name of the table slot of the type `object`.
pub fn slot_name(object: &str) -> (slot: String)
    ensures
        slot@ == slot_name_spec(object@),
{
    String::from_str("__").concat(object).concat("_fns")
}

/// Lists what is generated for a description.
pub fn plan(input: ObjectInput) -> (fragments: Vec<Fragment>)
    ensures
        fragment_views(fragments@) == plan_spec(input@),
{
    let ObjectInput { object, name, functions, class, impls } = input;
    let mut fragments: Vec<Fragment> = Vec::new();
    fragments.push(Fragment::Handle { object: object.clone() });
    assert(fragment_views(fragments@) =~= seq![FragmentView::Handle { object: object@ }]);
    if let Some(name) = name {
        let ghost before = fragment_views(fragments@);
        let ghost text = name@;
        fragments.push(Fragment::InternalName { object: object.clone(), name });
        assert(fragment_views(fragments@) =~= before + seq![
            FragmentView::InternalName { object: object@, name: text },
        ]);
    }
    if let Some(f) = functions {
        let ghost before = fragment_views(fragments@);
        let ghost fv = f@;
        let slot = slot_name(object.as_str());
        fragments.push(
            Fragment::FunctionTable {
                object: object.clone(),
                slot,
                section: f.section,
                handle: f.handle,
                functions: f.functions,
                source: f.field,
            },
        );
        assert(fragment_views(fragments@) =~= before + seq![
            FragmentView::FunctionTable {
                object: object@,
                slot: slot_name_spec(object@),
                section: fv.section,
                handle: fv.handle,
                functions: fv.functions,
                source: fv.field,
            },
        ]);
    }
    if let Some(class) = class {
        let ghost before = fragment_views(fragments@);
        let ghost text = class@;
        fragments.push(Fragment::StaticClass { object: object.clone(), class });
        assert(fragment_views(fragments@) =~= before + seq![
            FragmentView::StaticClass { object: object@, class: text },
        ]);
    }
    if impls.len() > 0 {
        let ghost before = fragment_views(fragments@);
        let ghost names = texts(impls@);
        fragments.push(Fragment::Impls { object: object.clone(), capabilities: impls });
        assert(fragment_views(fragments@) =~= before + seq![
            FragmentView::Impls { object: object@, capabilities: names },
        ]);
    }
    assert(fragment_views(fragments@) =~= plan_spec(input@));
    fragments
}

/// What is generated from `tokens`, by the answers in `verdicts`: the
/// fragments of the description that they give, or the reader's error.
pub open spec fn define_spec(tokens: Seq<Token>, verdicts: Seq<Verdict>) -> Result<
    Seq<FragmentView>,
    ParseError,
> {
    match parse_spec(tokens, verdicts) {
        Ok(input) => Ok(plan_spec(input)),
        Err(e) => Err(e),
    }
}

/// What a generator returned, by its view.
pub open spec fn define_outcome(generated: Result<Vec<Fragment>, ParseError>) -> Result<
    Seq<FragmentView>,
    ParseError,
> {
    match generated {
        Ok(fragments) => Ok(fragment_views(fragments@)),
        Err(e) => Err(e),
    }
}

/// Reads a description from its tokens, by the answers in `verdicts`, and
/// lists what is generated for it. Tokens that are no description give the
/// reader's error and nothing is generated.
pub fn define_object_with(tokens: &Vec<Token>, verdicts: &Vec<Verdict>) -> (generated: Result<
    Vec<Fragment>,
    ParseError,
>)
    requires
        verdicts@.len() == tokens@.len(),
    ensures
        define_outcome(generated) == define_spec(tokens@, verdicts@),
{
    match ObjectInput::parse_with(tokens, verdicts) {
        Ok(input) => Ok(plan(input)),
        Err(e) => Err(e),
    }
}

/// Reads a description from its tokens, asking `syn` about the types and the
/// expression of each `@functions(..)` section, and lists what is generated
/// for it. The result is what [`define_spec`] gives for the answers.
pub fn define_object(tokens: &Vec<Token>) -> (generated: Result<Vec<Fragment>, ParseError>)
    ensures
        exists|verdicts: Seq<Verdict>|
            verdicts.len() == tokens@.len() && define_outcome(generated) == #[trigger] define_spec(
                tokens@,
                verdicts,
            ),
{
    let read = ObjectInput::parse(tokens);
    let ghost verdicts = choose|verdicts: Seq<Verdict>|
        verdicts.len() == tokens@.len() && input_outcome(read) == #[trigger] parse_spec(
            tokens@,
            verdicts,
        );
    let generated = match read {
        Ok(input) => Ok(plan(input)),
        Err(e) => Err(e),
    };
    assert(define_outcome(generated) == define_spec(tokens@, verdicts));
    generated
}

} // verus!
