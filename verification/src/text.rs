//! Text before it is translated.
//!
//! What the interface says is fixed here by its source text and its arguments.
//! Looking the source up in the catalogue of the running language and printing
//! the arguments is left to the application.
use crate::ids::{
    BlastShapeRef, BlockModelId, Carried, DelayProductId, DrillHoleId, LanguageChoice, LayerId, ObjectId, PointCloudId, ProjectId,
    RasterTextureId, RenameTarget, ReserveFieldId, SceneEntityId, SolidId, TriangulationId,
};
use crate::model::{Axis, ObjectKind, SolidKind};
use crate::number::{Real32, Real64, Vec3};
use crate::workspace::SolidsStep;
use vstd::prelude::*;

verus! {

/// Where the words of a text come from.
#[derive(Clone, Debug, PartialEq)]
pub enum Source {
    /// Words in the source language, translated as they stand.
    Literal(&'static str),
    /// A key of the catalogue.
    Key(&'static str),
    /// A template that is printed in every language alike.
    Plain(&'static str),
    /// Words the user wrote, printed as they are.
    Verbatim(String),
}

/// A value printed into a text.
#[derive(Clone, Debug, PartialEq)]
pub enum Arg {
    Count(usize),
    Number(u64),
    Name(String),
    /// Words that are translated before they are printed.
    Words(&'static str),
    /// A catalogue key that is translated before it is printed.
    Keyed(&'static str),
    Flag(bool),
    /// A number with as many decimals as it needs.
    Real(Real64),
    Single(Real32),
    /// A number with a fixed count of decimals.
    Fixed { value: Real64, decimals: u8 },
    /// The same with its sign always printed.
    Signed { value: Real64, decimals: u8 },
    /// The same, padded with zeros to a width.
    Padded { value: Real64, width: u8, decimals: u8 },
    Point(Vec3),
    Layer(LayerId),
    Object(ObjectId),
    Triangulation(TriangulationId),
    Raster(RasterTextureId),
    PointCloud(PointCloudId),
    BlockModel(BlockModelId),
    DrillHole(DrillHoleId),
    ReserveField(ReserveFieldId),
    Solid(SolidId),
    Product(DelayProductId),
    Project(ProjectId),
    Blast(BlastShapeRef),
    Entity(SceneEntityId),
    Target(RenameTarget),
    /// The name a language gives itself.
    Endonym(LanguageChoice),
    AxisName(Axis),
    KindName(ObjectKind),
    /// What a kind of solid is called.
    SolidKindName(SolidKind),
    /// The label of a value that the application keeps.
    Label(Carried),
    /// What a step of the planning setup is called.
    StepName(SolidsStep),
    /// The three coordinates with a fixed count of decimals.
    PointFixed { value: Vec3, decimals: u8 },
    /// A phrase of its own around one number, translated before it is printed.
    Phrase { words: &'static str, name: &'static str, value: Real64, decimals: u8 },
    /// The same around a name, or around words that are translated where there is no
    /// name.
    NamePhrase { words: &'static str, name: &'static str, value: Option<String>, otherwise: &'static str },
}

/// A value with the name under which the template asks for it.
#[derive(Clone, Debug, PartialEq)]
pub struct Named {
    pub name: &'static str,
    pub value: Arg,
}

/// Up to three named values.
#[derive(Clone, Debug, PartialEq)]
pub enum Args {
    Zero,
    One(Named),
    Two(Named, Named),
    Three(Named, Named, Named),
}

/// A text and its arguments.
#[derive(Clone, Debug, PartialEq)]
pub struct Text {
    pub source: Source,
    pub args: Args,
}

#[verifier::allow_in_spec]
pub fn named(name: &'static str, value: Arg) -> (r: Named)
    returns
        (Named { name, value }),
{
    Named { name, value }
}

/// Words in the source language.
#[verifier::allow_in_spec]
pub fn literal(words: &'static str) -> (r: Text)
    returns
        (Text { source: Source::Literal(words), args: Args::Zero }),
{
    Text { source: Source::Literal(words), args: Args::Zero }
}

/// A catalogue key.
#[verifier::allow_in_spec]
pub fn key(key: &'static str) -> (r: Text)
    returns
        (Text { source: Source::Key(key), args: Args::Zero }),
{
    Text { source: Source::Key(key), args: Args::Zero }
}

/// Words the user wrote.
#[verifier::allow_in_spec]
pub fn verbatim(words: String) -> (r: Text)
    returns
        (Text { source: Source::Verbatim(words), args: Args::Zero }),
{
    Text { source: Source::Verbatim(words), args: Args::Zero }
}

/// One value and nothing else.
#[verifier::allow_in_spec]
pub fn only(value: Arg) -> (r: Text)
    returns
        (Text { source: Source::Plain("%value%"), args: Args::One(Named { name: "value", value }) }),
{
    Text { source: Source::Plain("%value%"), args: Args::One(Named { name: "value", value }) }
}

#[verifier::allow_in_spec]
pub fn literal1(words: &'static str, a: Named) -> (r: Text)
    returns
        (Text { source: Source::Literal(words), args: Args::One(a) }),
{
    Text { source: Source::Literal(words), args: Args::One(a) }
}

#[verifier::allow_in_spec]
pub fn literal2(words: &'static str, a: Named, b: Named) -> (r: Text)
    returns
        (Text { source: Source::Literal(words), args: Args::Two(a, b) }),
{
    Text { source: Source::Literal(words), args: Args::Two(a, b) }
}

#[verifier::allow_in_spec]
pub fn literal3(words: &'static str, a: Named, b: Named, c: Named) -> (r: Text)
    returns
        (Text { source: Source::Literal(words), args: Args::Three(a, b, c) }),
{
    Text { source: Source::Literal(words), args: Args::Three(a, b, c) }
}

#[verifier::allow_in_spec]
pub fn key1(key: &'static str, a: Named) -> (r: Text)
    returns
        (Text { source: Source::Key(key), args: Args::One(a) }),
{
    Text { source: Source::Key(key), args: Args::One(a) }
}

#[verifier::allow_in_spec]
pub fn key2(key: &'static str, a: Named, b: Named) -> (r: Text)
    returns
        (Text { source: Source::Key(key), args: Args::Two(a, b) }),
{
    Text { source: Source::Key(key), args: Args::Two(a, b) }
}

/// Words that are printed in every language alike.
#[verifier::allow_in_spec]
pub fn plain(template: &'static str) -> (r: Text)
    returns
        (Text { source: Source::Plain(template), args: Args::Zero }),
{
    Text { source: Source::Plain(template), args: Args::Zero }
}

#[verifier::allow_in_spec]
pub fn plain1(template: &'static str, a: Named) -> (r: Text)
    returns
        (Text { source: Source::Plain(template), args: Args::One(a) }),
{
    Text { source: Source::Plain(template), args: Args::One(a) }
}

#[verifier::allow_in_spec]
pub fn plain2(template: &'static str, a: Named, b: Named) -> (r: Text)
    returns
        (Text { source: Source::Plain(template), args: Args::Two(a, b) }),
{
    Text { source: Source::Plain(template), args: Args::Two(a, b) }
}

} // verus!
