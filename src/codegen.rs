//! What a derived implementation of the reflection contract shows for a type, decided from
//! the type's declared fields and variants and their attributes.
use vstd::prelude::*;

use crate::probe::VariantsStyle;

verus! {

/// A naming convention that field and variant names can be converted to.
#[derive(Clone, Copy, Debug, PartialEq, Eq, Structural)]
pub enum RenameCase {
    SnakeCase,
    CamelCase,
    PascalCase,
    ScreamingSnakeCase,
    UpperSnakeCase,
    KebabCase,
    TrainCase,
}

/// The name that convert_case gives `ident` in the convention `case`.
pub uninterp spec fn case_converted(ident: Seq<char>, case: RenameCase) -> Seq<char>;

/// Relies on convert_case's `Casing::to_case`: the converted name depends on the identifier
/// and the convention alone.
#[verifier::external_body]
fn to_case(ident: &str, case: RenameCase) -> (r: String)
    ensures
        r@ == case_converted(ident@, case),
{
    let case = match case {
        RenameCase::SnakeCase => convert_case::Case::Snake,
        RenameCase::CamelCase => convert_case::Case::Camel,
        RenameCase::PascalCase => convert_case::Case::Pascal,
        RenameCase::ScreamingSnakeCase => convert_case::Case::ScreamingSnake,
        RenameCase::UpperSnakeCase => convert_case::Case::UpperSnake,
        RenameCase::KebabCase => convert_case::Case::Kebab,
        RenameCase::TrainCase => convert_case::Case::Train,
    };
    convert_case::Casing::to_case(&ident, case)
}

impl RenameCase {
    /// `ident` written in this convention.
    pub fn rename(&self, ident: &String) -> (r: String)
        ensures
            r@ == case_converted(ident@, *self),
    {
        to_case(ident.as_str(), *self)
    }
}

/// How a field's editor is chosen, where an attribute chooses it.
#[derive(Clone, Copy, Debug, PartialEq, Eq, Structural)]
pub enum FieldProbeKind {
    Range,
    With,
    ProbeAs,
    Multiline,
    ToggleSwitch,
}

/// A mistake in the attributes of a type, found before anything is generated.
#[derive(Clone, Copy, Debug, PartialEq, Eq, Structural)]
pub enum DeriveError {
    /// A skipped field also has a name.
    NamedSkippedField,
    /// A skipped field also says how it is edited.
    SkippedFieldKind(FieldProbeKind),
    /// A transparent struct has other than exactly one field that is not skipped.
    TransparentStruct,
    /// A transparent variant has other than exactly one field that is not skipped.
    TransparentVariant,
    /// Only enums can choose how their variants are selected.
    TagsOnStruct,
    /// Unions are not supported.
    Union,
}

/// A declared field and its attributes.
pub struct FieldInput {
    /// `None` for a field of a tuple struct or tuple variant.
    pub ident: Option<String>,
    pub skip: bool,
    pub name: Option<String>,
    pub kind: Option<FieldProbeKind>,
}

/// A field that is shown: its position among the declared fields, its label, its editor.
pub struct FieldPlan {
    pub index: usize,
    pub name: String,
    pub kind: Option<FieldProbeKind>,
}

pub type FieldPlanView = (int, Seq<char>, Option<FieldProbeKind>);

impl View for FieldPlan {
    type V = FieldPlanView;

    open spec fn view(&self) -> FieldPlanView {
        (self.index as int, self.name@, self.kind)
    }
}

pub open spec fn opt_view(s: Option<String>) -> Option<Seq<char>> {
    match s {
        Some(s) => Some(s@),
        None => None,
    }
}

/// The label of a field or variant: the name given by attribute, else the identifier in the
/// type-wide convention if there is one, else the identifier as declared, else nothing.
pub open spec fn name_of(
    name: Option<Seq<char>>,
    ident: Option<Seq<char>>,
    rename: Option<RenameCase>,
) -> Seq<char> {
    match name {
        Some(n) => n,
        None => match ident {
            None => Seq::empty(),
            Some(i) => match rename {
                None => i,
                Some(c) => case_converted(i, c),
            },
        },
    }
}

pub fn make_name(name: &Option<String>, ident: &Option<String>, rename: Option<RenameCase>) -> (r:
    String)
    ensures
        r@ == name_of(opt_view(*name), opt_view(*ident), rename),
{
    match name {
        Some(n) => n.clone(),
        None => match ident {
            None => String::new(),
            Some(i) => match rename {
                None => i.clone(),
                Some(c) => c.rename(i),
            },
        },
    }
}

/// What becomes of the field at `index`: an error where it is skipped and has attributes that
/// only a shown field can have, nothing where it is skipped, else its plan.
pub open spec fn field_outcome(index: int, f: FieldInput, rename: Option<RenameCase>) -> Result<
    Option<FieldPlanView>,
    DeriveError,
> {
    if f.skip {
        if f.name is Some {
            Err(DeriveError::NamedSkippedField)
        } else if f.kind is Some {
            Err(DeriveError::SkippedFieldKind(f.kind->0))
        } else {
            Ok(None)
        }
    } else {
        Ok(Some((index, name_of(opt_view(f.name), opt_view(f.ident), rename), f.kind)))
    }
}

pub fn field_probe(index: usize, field: &FieldInput, rename: Option<RenameCase>) -> (r: Result<
    Option<FieldPlan>,
    DeriveError,
>)
    ensures
        match (r, field_outcome(index as int, *field, rename)) {
            (Ok(None), Ok(None)) => true,
            (Ok(Some(p)), Ok(Some(q))) => p@ == q,
            (Err(e), Err(d)) => e == d,
            _ => false,
        },
{
    if field.skip {
        if field.name.is_some() {
            return Err(DeriveError::NamedSkippedField);
        }
        match field.kind {
            Some(k) => Err(DeriveError::SkippedFieldKind(k)),
            None => Ok(None),
        }
    } else {
        let name = make_name(&field.name, &field.ident, rename);
        Ok(Some(FieldPlan { index, name, kind: field.kind }))
    }
}

/// The shown fields of a list of declared fields, in order, or the error of the first field
/// that has one.
pub open spec fn fields_outcome(fields: Seq<FieldInput>, rename: Option<RenameCase>) -> Result<
    Seq<FieldPlanView>,
    DeriveError,
>
    decreases fields.len(),
{
    if fields.len() == 0 {
        Ok(Seq::empty())
    } else {
        match fields_outcome(fields.drop_last(), rename) {
            Err(e) => Err(e),
            Ok(shown) => match field_outcome(fields.len() - 1, fields.last(), rename) {
                Err(e) => Err(e),
                Ok(None) => Ok(shown),
                Ok(Some(p)) => Ok(shown.push(p)),
            },
        }
    }
}

pub open spec fn plans_view(plans: Seq<FieldPlan>) -> Seq<FieldPlanView> {
    plans.map_values(|p: FieldPlan| p@)
}

pub fn fields_probe(fields: &Vec<FieldInput>, rename: Option<RenameCase>) -> (r: Result<
    Vec<FieldPlan>,
    DeriveError,
>)
    ensures
        match (r, fields_outcome(fields@, rename)) {
            (Ok(p), Ok(q)) => plans_view(p@) == q,
            (Err(e), Err(d)) => e == d,
            _ => false,
        },
{
    let mut plans: Vec<FieldPlan> = Vec::new();
    let mut i: usize = 0;
    assert(plans_view(plans@) =~= Seq::<FieldPlanView>::empty());
    while i < fields.len()
        invariant
            i <= fields.len(),
            fields_outcome(fields@.subrange(0, i as int), rename) == Ok::<
                Seq<FieldPlanView>,
                DeriveError,
            >(plans_view(plans@)),
        decreases fields.len() - i,
    {
        proof {
            let s = fields@.subrange(0, i + 1);
            assert(s.drop_last() =~= fields@.subrange(0, i as int));
            assert(s.last() == fields@[i as int]);
        }
        match field_probe(i, &fields[i], rename) {
            Err(e) => {
                proof {
                    fields_error_stays(fields@, rename, i as int + 1);
                    assert(fields@.subrange(0, fields@.len() as int) =~= fields@);
                }
                return Err(e);
            },
            Ok(None) => {},
            Ok(Some(p)) => {
                let ghost old_plans = plans@;
                plans.push(p);
                assert(plans_view(plans@) =~= plans_view(old_plans).push(p@));
            },
        }
        i = i + 1;
    }
    assert(fields@.subrange(0, fields.len() as int) =~= fields@);
    Ok(plans)
}

/// Once a prefix of the fields has an error, so does every longer prefix, with the same error.
proof fn fields_error_stays(fields: Seq<FieldInput>, rename: Option<RenameCase>, k: int)
    requires
        0 <= k <= fields.len(),
        fields_outcome(fields.subrange(0, k), rename) is Err,
    ensures
        fields_outcome(fields, rename) == fields_outcome(fields.subrange(0, k), rename),
    decreases fields.len() - k,
{
    if k < fields.len() {
        let s = fields.subrange(0, k + 1);
        assert(s.drop_last() =~= fields.subrange(0, k));
        fields_error_stays(fields, rename, k + 1);
    } else {
        assert(fields.subrange(0, k) =~= fields);
    }
}

/// A declared variant and its attributes.
pub struct VariantInput {
    pub ident: String,
    pub name: Option<String>,
    /// The variant is shown through its one field, inline.
    pub transparent: bool,
    pub fields: Vec<FieldInput>,
}

/// What a variant shows: its label in the selector, whether it is transparent, whether it has
/// nested rows, and its shown fields.
pub struct VariantPlan {
    pub name: String,
    pub transparent: bool,
    pub has_inner: bool,
    pub fields: Vec<FieldPlan>,
}

pub type VariantPlanView = (Seq<char>, bool, bool, Seq<FieldPlanView>);

impl View for VariantPlan {
    type V = VariantPlanView;

    open spec fn view(&self) -> VariantPlanView {
        (self.name@, self.transparent, self.has_inner, plans_view(self.fields@))
    }
}

/// The error a transparent variant has: one of its fields', or the wrong number of shown
/// fields.
pub open spec fn inline_error(v: VariantInput, rename: Option<RenameCase>) -> Option<DeriveError> {
    if v.transparent {
        match fields_outcome(v.fields@, rename) {
            Err(e) => Some(e),
            Ok(shown) => if shown.len() != 1 {
                Some(DeriveError::TransparentVariant)
            } else {
                None
            },
        }
    } else {
        None
    }
}

/// The error a variant that is not transparent has: one of its fields'.
pub open spec fn inner_error(v: VariantInput, rename: Option<RenameCase>) -> Option<DeriveError> {
    if !v.transparent {
        match fields_outcome(v.fields@, rename) {
            Err(e) => Some(e),
            Ok(_) => None,
        }
    } else {
        None
    }
}

pub open spec fn first_inline_error(vs: Seq<VariantInput>, rename: Option<RenameCase>) -> Option<
    DeriveError,
>
    decreases vs.len(),
{
    if vs.len() == 0 {
        None
    } else {
        match first_inline_error(vs.drop_last(), rename) {
            Some(e) => Some(e),
            None => inline_error(vs.last(), rename),
        }
    }
}

pub open spec fn first_inner_error(vs: Seq<VariantInput>, rename: Option<RenameCase>) -> Option<
    DeriveError,
>
    decreases vs.len(),
{
    if vs.len() == 0 {
        None
    } else {
        match first_inner_error(vs.drop_last(), rename) {
            Some(e) => Some(e),
            None => inner_error(vs.last(), rename),
        }
    }
}

pub open spec fn variant_view(v: VariantInput, rename: Option<RenameCase>) -> VariantPlanView {
    (
        name_of(opt_view(v.name), Some(v.ident@), rename),
        v.transparent,
        !v.transparent && v.fields@.len() > 0,
        fields_outcome(v.fields@, rename)->Ok_0,
    )
}

/// The variants of an enum: the errors of the transparent variants come first, in order, then
/// those of the others.
pub open spec fn variants_outcome(vs: Seq<VariantInput>, rename: Option<RenameCase>) -> Result<
    Seq<VariantPlanView>,
    DeriveError,
> {
    match first_inline_error(vs, rename) {
        Some(e) => Err(e),
        None => match first_inner_error(vs, rename) {
            Some(e) => Err(e),
            None => Ok(vs.map_values(|v: VariantInput| variant_view(v, rename))),
        },
    }
}

proof fn no_first_inline_error(vs: Seq<VariantInput>, rename: Option<RenameCase>, k: int)
    requires
        first_inline_error(vs, rename) is None,
        0 <= k < vs.len(),
    ensures
        inline_error(vs[k], rename) is None,
    decreases vs.len(),
{
    if k < vs.len() - 1 {
        assert(vs.drop_last()[k] == vs[k]);
        no_first_inline_error(vs.drop_last(), rename, k);
    }
}

proof fn first_error_stays(vs: Seq<VariantInput>, rename: Option<RenameCase>, k: int, inline: bool)
    requires
        0 <= k <= vs.len(),
        inline ==> first_inline_error(vs.subrange(0, k), rename) is Some,
        !inline ==> first_inner_error(vs.subrange(0, k), rename) is Some,
    ensures
        inline ==> first_inline_error(vs, rename) == first_inline_error(vs.subrange(0, k), rename),
        !inline ==> first_inner_error(vs, rename) == first_inner_error(vs.subrange(0, k), rename),
    decreases vs.len() - k,
{
    if k < vs.len() {
        assert(vs.subrange(0, k + 1).drop_last() =~= vs.subrange(0, k));
        first_error_stays(vs, rename, k + 1, inline);
    } else {
        assert(vs.subrange(0, k) =~= vs);
    }
}

fn variants_probe(variants: &Vec<VariantInput>, rename: Option<RenameCase>) -> (r: Result<
    Vec<VariantPlan>,
    DeriveError,
>)
    ensures
        match (r, variants_outcome(variants@, rename)) {
            (Ok(p), Ok(q)) => p@.map_values(|v: VariantPlan| v@) == q,
            (Err(e), Err(d)) => e == d,
            _ => false,
        },
{
    let ghost vs = variants@;
    let mut i: usize = 0;
    while i < variants.len()
        invariant
            i <= variants.len(),
            vs == variants@,
            first_inline_error(vs.subrange(0, i as int), rename) is None,
        decreases variants.len() - i,
    {
        let v = &variants[i];
        proof {
            assert(vs.subrange(0, i + 1).drop_last() =~= vs.subrange(0, i as int));
            assert(vs.subrange(0, i + 1).last() == vs[i as int]);
        }
        if v.transparent {
            let failed = match fields_probe(&v.fields, rename) {
                Err(e) => Some(e),
                Ok(shown) => if shown.len() != 1 {
                    Some(DeriveError::TransparentVariant)
                } else {
                    None
                },
            };
            if let Some(e) = failed {
                proof {
                    first_error_stays(vs, rename, i + 1, true);
                }
                return Err(e);
            }
        }
        i = i + 1;
    }
    assert(vs.subrange(0, vs.len() as int) =~= vs);
    let mut plans: Vec<VariantPlan> = Vec::new();
    let mut i: usize = 0;
    while i < variants.len()
        invariant
            i <= variants.len(),
            vs == variants@,
            first_inline_error(vs, rename) is None,
            first_inner_error(vs.subrange(0, i as int), rename) is None,
            plans@.map_values(|v: VariantPlan| v@) == vs.subrange(0, i as int).map_values(
                |v: VariantInput| variant_view(v, rename),
            ),
        decreases variants.len() - i,
    {
        let v = &variants[i];
        proof {
            assert(vs.subrange(0, i + 1).drop_last() =~= vs.subrange(0, i as int));
            assert(vs.subrange(0, i + 1).last() == vs[i as int]);
            no_first_inline_error(vs, rename, i as int);
        }
        let fields = match fields_probe(&v.fields, rename) {
            Ok(f) => f,
            Err(e) => {
                proof {
                    first_error_stays(vs, rename, i + 1, false);
                }
                return Err(e);
            },
        };
        let name = make_name(&v.name, &Some(v.ident.clone()), rename);
        let has_inner = crate::probe::variant_has_inner(v.transparent, v.fields.len());
        let ghost old_plans = plans@;
        plans.push(VariantPlan { name, transparent: v.transparent, has_inner, fields });
        proof {
            assert(plans@.map_values(|v: VariantPlan| v@) =~= old_plans.map_values(
                |v: VariantPlan| v@,
            ).push(plans@.last()@));
            assert(vs.subrange(0, i + 1).map_values(|v: VariantInput| variant_view(v, rename))
                =~= vs.subrange(0, i as int).map_values(|v: VariantInput| variant_view(v, rename)).push(
                variant_view(vs[i as int], rename),
            ));
        }
        i = i + 1;
    }
    assert(vs.subrange(0, vs.len() as int) =~= vs);
    Ok(plans)
}

/// The declared shape of a type.
pub enum TypeData {
    Struct(Vec<FieldInput>),
    Enum(Vec<VariantInput>),
    Union,
}

/// A declared type and its type-wide attributes.
pub struct TypeInput {
    /// Convention for the names of fields and variants that are not named by attribute.
    pub rename_all: Option<RenameCase>,
    /// A struct shown through its one field, inline.
    pub transparent: bool,
    /// How an enum offers its variants, where the type fixes it instead of the caller's style.
    pub tags: Option<VariantsStyle>,
    pub data: TypeData,
}

/// What the generated implementation shows.
pub enum TypePlan {
    /// A transparent struct: its one shown field, inline, with no children.
    Transparent(FieldPlan),
    /// A struct: a header with one row per shown field.
    Record(Vec<FieldPlan>),
    /// An enum: a variant selector, and the active variant's fields.
    Enum { tags: Option<VariantsStyle>, variants: Vec<VariantPlan> },
}

/// Decides what the implementation generated for `input` shows, or the first mistake in its
/// attributes.
pub fn derive(input: &TypeInput) -> (r: Result<TypePlan, DeriveError>)
    ensures
        match input.data {
            TypeData::Union => r == Err::<TypePlan, DeriveError>(DeriveError::Union),
            TypeData::Struct(fields) => if input.tags is Some {
                r == Err::<TypePlan, DeriveError>(DeriveError::TagsOnStruct)
            } else {
                match (r, fields_outcome(fields@, input.rename_all)) {
                    (Err(e), Err(d)) => e == d,
                    (Err(e), Ok(q)) => input.transparent && q.len() != 1 && e
                        == DeriveError::TransparentStruct,
                    (Ok(TypePlan::Transparent(p)), Ok(q)) => input.transparent && q.len() == 1
                        && p@ == q[0],
                    (Ok(TypePlan::Record(p)), Ok(q)) => !input.transparent && plans_view(p@) == q,
                    _ => false,
                }
            },
            TypeData::Enum(vs) => match (r, variants_outcome(vs@, input.rename_all)) {
                (Ok(TypePlan::Enum { tags, variants }), Ok(q)) => tags == input.tags
                    && variants@.map_values(|v: VariantPlan| v@) == q,
                (Err(e), Err(d)) => e == d,
                _ => false,
            },
        },
{
    match &input.data {
        TypeData::Union => Err(DeriveError::Union),
        TypeData::Struct(fields) => {
            if input.tags.is_some() {
                return Err(DeriveError::TagsOnStruct);
            }
            let mut shown = fields_probe(fields, input.rename_all)?;
            if input.transparent {
                if shown.len() != 1 {
                    return Err(DeriveError::TransparentStruct);
                }
                let p = shown.pop().unwrap();
                proof {
                    assert(plans_view(shown@.push(p)) =~= seq![p@]);
                }
                Ok(TypePlan::Transparent(p))
            } else {
                Ok(TypePlan::Record(shown))
            }
        },
        TypeData::Enum(vs) => {
            let variants = variants_probe(vs, input.rename_all)?;
            Ok(TypePlan::Enum { tags: input.tags, variants })
        },
    }
}

} // verus!
