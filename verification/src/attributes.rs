//! The `prost_convert` attribute: which protobuf type a native type is
//! converted to and from, and through which wrapper message.

use crate::ast::{Attribute, DeriveInput, Lit, Meta, MetaNameValue, NestedMeta, Path, PathView};
use crate::error::{Anchor, DeriveError, Failure};
use crate::symbol::{src, wrapper};
use vstd::prelude::*;
use vstd::string::*;

verus! {

/// The name of the attribute that the generator reads.
pub const PROST_CONVERT: &'static str = "prost_convert";

/// What the `prost_convert` attributes of a type say.
#[derive(Debug)]
pub struct Attributes {
    /// The path of the protobuf enum or struct equivalent.
    src: Path,
    /// The path of the wrapper struct if any.
    wrapper: Option<Path>,
}

/// The mathematical value of [`Attributes`].
pub struct AttributesView {
    pub src: PathView,
    pub wrapper: Option<PathView>,
}

impl View for Attributes {
    type V = AttributesView;

    closed spec fn view(&self) -> AttributesView {
        AttributesView { src: self.src@, wrapper: path_view(self.wrapper) }
    }
}

/// The view of a path that may be absent.
pub open spec fn path_view(path: Option<Path>) -> Option<PathView> {
    match path {
        Some(p) => Some(p@),
        None => None,
    }
}

/// The path that `syn::Path::parse_mod_style` reads from a text: `Some` of
/// the path where the whole text is one module-style path, `None` where the
/// parser rejects it.
pub uninterp spec fn mod_style_path(text: Seq<char>) -> Option<PathView>;

/// `syn::Path::parse_mod_style`, run over a whole text by
/// `syn::parse::Parser::parse_str`: the outcome is the one named by
/// [`mod_style_path`], the path's segments given by their identifiers.
#[verifier::external_body]
fn parse_mod_style(text: &str) -> (parsed: Result<Path, syn::Error>)
    ensures
        match parsed {
            Ok(path) => mod_style_path(text@) == Some(path@),
            Err(_) => mod_style_path(text@) is None,
        },
{
    let path = syn::parse::Parser::parse_str(syn::Path::parse_mod_style, text)?;
    Ok(
        Path {
            leading_colon: path.leading_colon.is_some(),
            segments: path.segments.iter().map(|segment| segment.ident.to_string()).collect(),
        },
    )
}

/// Whether an attribute is one of the generator's own.
pub open spec fn is_ours(attr: Attribute) -> bool {
    attr.path@.is_ident(PROST_CONVERT@)
}

/// The arguments that the attribute with the given index contributes: none
/// for an attribute of another name, the listed arguments for
/// `#[prost_convert(...)]`, and a failure for any other form of it.
pub open spec fn contribution(attr: Attribute, index: int) -> Result<Seq<NestedMeta>, Failure> {
    if !is_ours(attr) {
        Ok(Seq::empty())
    } else {
        match attr.meta {
            Ok(Meta::List(list)) => Ok(list.nested@),
            Ok(_) => Err(Failure::ExpectedSrc(Anchor::Attribute(index as usize))),
            Err(complaint) => Err(Failure::MalformedAttribute(index as usize, complaint@)),
        }
    }
}

/// The arguments of an attribute, empty where it contributes none.
pub open spec fn arguments(attr: Attribute) -> Seq<NestedMeta> {
    match contribution(attr, 0) {
        Ok(items) => items,
        Err(_) => Seq::empty(),
    }
}

/// The first failure among the contributions of the first `upto`
/// attributes.
pub open spec fn first_malformed(attrs: Seq<Attribute>, upto: int) -> Option<Failure>
    decreases upto,
{
    if upto <= 0 {
        None
    } else {
        match first_malformed(attrs, upto - 1) {
            Some(failure) => Some(failure),
            None => match contribution(attrs[upto - 1], upto - 1) {
                Err(failure) => Some(failure),
                Ok(_) => None,
            },
        }
    }
}

/// The paths collected so far.
pub struct Resolved {
    pub src: Option<PathView>,
    pub wrapper: Option<PathView>,
}

/// What one argument does.
pub enum Effect {
    /// It sets the protobuf type.
    Src(PathView),
    /// It sets the wrapper type.
    Wrapper(PathView),
    /// It is refused.
    Fail(Failure),
}

/// What the value of a `src` or `wrapper` argument gives: the path it
/// spells, or the failure at the literal.
pub open spec fn path_value(lit: Lit, at: Anchor) -> Result<PathView, Failure> {
    match lit {
        Lit::Str(text) => match mod_style_path(text@) {
            Some(path) => Ok(path),
            None => Err(Failure::InvalidPath(at)),
        },
        Lit::Other => Err(Failure::ExpectedSrc(at)),
    }
}

/// What the argument at `position` of attribute `attribute` does.
pub open spec fn effect(item: NestedMeta, attribute: int, position: int) -> Effect {
    let at_value = Anchor::Value(attribute as usize, position as usize);
    let at_argument = Anchor::Argument(attribute as usize, position as usize);
    match item {
        NestedMeta::Meta(Meta::NameValue(pair)) => {
            if pair.path@.is_ident("src"@) {
                match path_value(pair.lit, at_value) {
                    Ok(path) => Effect::Src(path),
                    Err(failure) => Effect::Fail(failure),
                }
            } else if pair.path@.is_ident("wrapper"@) {
                match path_value(pair.lit, at_value) {
                    Ok(path) => Effect::Wrapper(path),
                    Err(failure) => Effect::Fail(failure),
                }
            } else {
                Effect::Fail(Failure::ExpectedSrc(at_argument))
            }
        },
        NestedMeta::Meta(_) => Effect::Fail(Failure::ExpectedSrc(at_argument)),
        NestedMeta::Lit(_) => Effect::Fail(Failure::UnexpectedLiteral(at_argument)),
    }
}

/// The state after one more argument: a failure ends the scan, a later
/// value replaces an earlier one.
pub open spec fn apply(state: Result<Resolved, Failure>, effect: Effect) -> Result<
    Resolved,
    Failure,
> {
    match state {
        Err(failure) => Err(failure),
        Ok(found) => match effect {
            Effect::Src(path) => Ok(Resolved { src: Some(path), wrapper: found.wrapper }),
            Effect::Wrapper(path) => Ok(Resolved { src: found.src, wrapper: Some(path) }),
            Effect::Fail(failure) => Err(failure),
        },
    }
}

/// The state after the first `upto` arguments of one attribute.
pub open spec fn scan_arguments(
    state: Result<Resolved, Failure>,
    items: Seq<NestedMeta>,
    attribute: int,
    upto: int,
) -> Result<Resolved, Failure>
    decreases upto,
{
    if upto <= 0 {
        state
    } else {
        apply(
            scan_arguments(state, items, attribute, upto - 1),
            effect(items[upto - 1], attribute, upto - 1),
        )
    }
}

/// The state after the arguments of the first `upto` attributes, taken in
/// source order.
pub open spec fn scan(attrs: Seq<Attribute>, upto: int) -> Result<Resolved, Failure>
    decreases upto,
{
    if upto <= 0 {
        Ok(Resolved { src: None, wrapper: None })
    } else {
        let items = arguments(attrs[upto - 1]);
        scan_arguments(scan(attrs, upto - 1), items, upto - 1, items.len() as int)
    }
}

/// What the attributes of a definition resolve to.
///
/// An attribute of the generator's name that is no argument list fails
/// first. Then the arguments are read in source order: the first one that
/// is refused fails, and of several `src` or `wrapper` values the last
/// stands. Without any `src` the whole definition is at fault.
pub open spec fn resolution(attrs: Seq<Attribute>) -> Result<AttributesView, Failure> {
    match first_malformed(attrs, attrs.len() as int) {
        Some(failure) => Err(failure),
        None => match scan(attrs, attrs.len() as int) {
            Err(failure) => Err(failure),
            Ok(found) => match found.src {
                Some(path) => Ok(AttributesView { src: path, wrapper: found.wrapper }),
                None => Err(Failure::ExpectedSrc(Anchor::Input)),
            },
        },
    }
}

/// Extract all attributes that are inside a `#[prost_convert(...)]` if the
/// attribute is "prost_convert", return nothing otherwise.
fn get_prost_convert_meta_item(attr: &Attribute, index: usize) -> (items: Result<
    Option<&Vec<NestedMeta>>,
    DeriveError,
>)
    ensures
        match items {
            Ok(Some(list)) => is_ours(*attr) && contribution(*attr, index as int) == Ok::<
                _,
                Failure,
            >(list@),
            Ok(None) => !is_ours(*attr),
            Err(error) => contribution(*attr, index as int) == Err::<Seq<NestedMeta>, _>(error@),
        },
{
    if !attr.path.is_ident(PROST_CONVERT) {
        return Ok(None);
    }
    match &attr.meta {
        Ok(Meta::List(meta)) => Ok(Some(&meta.nested)),
        Ok(_) => Err(DeriveError::ExpectedSrc(Anchor::Attribute(index))),
        Err(complaint) => Err(DeriveError::MalformedAttribute(index, complaint.clone())),
    }
}

/// Turns the parser's verdict on the value of `src` or `wrapper` into the
/// generator's own: the path, or the failure at the literal.
pub fn path_or_failure(parsed: Result<Path, syn::Error>, at: Anchor) -> (path: Result<
    Path,
    DeriveError,
>)
    ensures
        match (parsed, path) {
            (Ok(given), Ok(taken)) => taken == given,
            (Err(_), Err(error)) => error@ == Failure::InvalidPath(at),
            _ => false,
        },
{
    match parsed {
        Ok(given) => Ok(given),
        Err(error) => Err(DeriveError::InvalidPath(at, error)),
    }
}

/// Reads the value of a `src` or `wrapper` argument.
fn read_path(lit: &Lit, at: Anchor) -> (path: Result<Path, DeriveError>)
    ensures
        match path {
            Ok(found) => path_value(*lit, at) == Ok::<_, Failure>(found@),
            Err(error) => path_value(*lit, at) == Err::<PathView, _>(error@),
        },
{
    match lit {
        Lit::Str(attr_value) => path_or_failure(parse_mod_style(attr_value.as_str()), at),
        Lit::Other => Err(DeriveError::ExpectedSrc(at)),
    }
}

impl Attributes {
    /// Reads the `prost_convert` attributes of a definition.
    pub fn from_ast(ast: &DeriveInput) -> (attrs: Result<Self, DeriveError>)
        ensures
            match attrs {
                Ok(found) => resolution(ast.attrs@) == Ok::<_, Failure>(found@),
                Err(error) => resolution(ast.attrs@) == Err::<AttributesView, _>(error@),
            },
    {
        let ghost all = ast.attrs@;
        let mut groups: Vec<Option<&Vec<NestedMeta>>> = Vec::new();
        let mut i: usize = 0;
        while i < ast.attrs.len()
            invariant
                i <= ast.attrs.len(),
                all == ast.attrs@,
                groups.len() == i,
                first_malformed(all, i as int) is None,
                forall|k: int|
                    0 <= k < i ==> arguments(#[trigger] all[k]) == match groups[k] {
                        Some(list) => list@,
                        None => Seq::empty(),
                    },
            decreases ast.attrs.len() - i,
        {
            match get_prost_convert_meta_item(&ast.attrs[i], i) {
                Ok(items) => {
                    groups.push(items);
                },
                Err(error) => {
                    assert(first_malformed(all, i + 1) == Some(error@));
                    proof {
                        lemma_first_malformed_stays(all, i + 1, all.len() as int);
                    }
                    return Err(error);
                },
            }
            i += 1;
        }

        let mut wrapper_path: Option<Path> = None;
        let mut src_path: Option<Path> = None;
        let mut i: usize = 0;
        while i < groups.len()
            invariant
                i <= groups.len(),
                all == ast.attrs@,
                groups.len() == all.len(),
                first_malformed(all, all.len() as int) is None,
                forall|k: int|
                    0 <= k < all.len() ==> arguments(#[trigger] all[k]) == match groups[k] {
                        Some(list) => list@,
                        None => Seq::empty(),
                    },
                scan(all, i as int) == Ok::<_, Failure>(
                    Resolved { src: path_view(src_path), wrapper: path_view(wrapper_path) },
                ),
            decreases groups.len() - i,
        {
            if let Some(items) = groups[i] {
                let ghost before = scan(all, i as int);
                let mut j: usize = 0;
                while j < items.len()
                    invariant
                        j <= items.len(),
                        i < groups.len(),
                        groups.len() == all.len(),
                        all == ast.attrs@,
                        items@ == arguments(all[i as int]),
                        before == scan(all, i as int),
                        first_malformed(all, all.len() as int) is None,
                        scan_arguments(before, items@, i as int, j as int) == Ok::<_, Failure>(
                            Resolved {
                                src: path_view(src_path),
                                wrapper: path_view(wrapper_path),
                            },
                        ),
                    decreases items.len() - j,
                {
                    let ghost next = effect(items@[j as int], i as int, j as int);
                    let outcome: Result<(), DeriveError> = match &items[j] {
                        // Parse `#[prost_convert(src = "foo")]`
                        NestedMeta::Meta(Meta::NameValue(m)) if m.path == src() => {
                            match read_path(&m.lit, Anchor::Value(i, j)) {
                                Ok(path) => {
                                    src_path = Some(path);
                                    Ok(())
                                },
                                Err(error) => Err(error),
                            }
                        },
                        // Parse `#[prost_convert(wrapper = "foo")]`
                        NestedMeta::Meta(Meta::NameValue(m)) if m.path == wrapper() => {
                            match read_path(&m.lit, Anchor::Value(i, j)) {
                                Ok(path) => {
                                    wrapper_path = Some(path);
                                    Ok(())
                                },
                                Err(error) => Err(error),
                            }
                        },
                        NestedMeta::Meta(_) => Err(
                            DeriveError::ExpectedSrc(Anchor::Argument(i, j)),
                        ),
                        NestedMeta::Lit(_) => Err(
                            DeriveError::UnexpectedLiteral(Anchor::Argument(i, j)),
                        ),
                    };
                    match outcome {
                        Ok(_) => {},
                        Err(error) => {
                            assert(next == Effect::Fail(error@));
                            assert(scan_arguments(before, items@, i as int, j + 1) == Err::<
                                Resolved,
                                _,
                            >(error@));
                            proof {
                                lemma_scan_arguments_failure_stays(
                                    before,
                                    items@,
                                    i as int,
                                    j + 1,
                                    items@.len() as int,
                                );
                                assert(scan(all, i + 1) == Err::<Resolved, _>(error@));
                                lemma_scan_failure_stays(all, i + 1, all.len() as int);
                            }
                            return Err(error);
                        },
                    }
                    j += 1;
                }
            }
            i += 1;
        }

        match src_path {
            Some(path) => Ok(Attributes { src: path, wrapper: wrapper_path }),
            None => Err(DeriveError::ExpectedSrc(Anchor::Input)),
        }
    }

    /// The path of the protobuf type.
    pub fn src(&self) -> (path: &Path)
        ensures
            path@ == self@.src,
    {
        &self.src
    }

    /// The path of the wrapper message, if one was named.
    pub fn wrapper(&self) -> (path: Option<&Path>)
        ensures
            match path {
                Some(found) => self@.wrapper == Some(found@),
                None => self@.wrapper is None,
            },
    {
        self.wrapper.as_ref()
    }
}

/// A failure among the first attributes is the failure among all.
proof fn lemma_first_malformed_stays(attrs: Seq<Attribute>, from: int, upto: int)
    requires
        from <= upto,
        first_malformed(attrs, from) is Some,
    ensures
        first_malformed(attrs, upto) == first_malformed(attrs, from),
    decreases upto - from,
{
    if from < upto {
        lemma_first_malformed_stays(attrs, from, upto - 1);
    }
}

/// Once the scan of an attribute's arguments has failed, it stays failed.
proof fn lemma_scan_arguments_failure_stays(
    state: Result<Resolved, Failure>,
    items: Seq<NestedMeta>,
    attribute: int,
    from: int,
    upto: int,
)
    requires
        from <= upto,
        scan_arguments(state, items, attribute, from) is Err,
    ensures
        scan_arguments(state, items, attribute, upto) == scan_arguments(
            state,
            items,
            attribute,
            from,
        ),
    decreases upto - from,
{
    if from < upto {
        lemma_scan_arguments_failure_stays(state, items, attribute, from, upto - 1);
    }
}

/// Once the scan of the attributes has failed, it stays failed.
proof fn lemma_scan_failure_stays(attrs: Seq<Attribute>, from: int, upto: int)
    requires
        0 <= from <= upto,
        scan(attrs, from) is Err,
    ensures
        scan(attrs, upto) == scan(attrs, from),
    decreases upto - from,
{
    if from < upto {
        lemma_scan_failure_stays(attrs, from, upto - 1);
        let items = arguments(attrs[upto - 1]);
        lemma_scan_arguments_failure_stays(
            scan(attrs, upto - 1),
            items,
            upto - 1,
            0,
            items.len() as int,
        );
    }
}

} // verus!
