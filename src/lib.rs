//! Merging of two SPDX 2.3 software bills of materials into one document.
//!
//! Values combine through [`Combinable`]: texts keep an agreeing value or join
//! two differing ones, sets take their union under structural equality, and
//! optional values let a present value win over an absent one. [`merge_at`]
//! applies these rules field by field to two documents of the supported
//! version and records this tool among the creators of the result.

mod combinable;
mod document;
mod merge;
mod value;
mod value_set;

pub use combinable::{
    combined_opt, combined_text, lemma_combine_opt_identity, lemma_combine_text_distinct,
    lemma_combine_text_order, lemma_combine_text_same, Combinable,
};
pub use document::{
    Annotation, AnnotationModel, Checksum, ChecksumModel, CreationInfo, CreationInfoModel,
    EndPointer, EndPointerModel, ExternalDocumentRef, ExternalDocumentRefModel, ExternalRef,
    ExternalRefModel, File, FileModel, HasExtractedLicensingInfo, HasExtractedLicensingInfoModel,
    Package, PackageModel, PackageVerificationCode, PackageVerificationCodeModel, Range,
    RangeModel, Relationship, RelationshipModel, Sbom, SbomModel, Snippet, SnippetModel,
    StartPointer, StartPointerModel, Timestamp,
};
pub use merge::{
    lemma_merge_names_tool, merge_at, merged_model, version_supported, MergeError, Paths,
    MERGE_TOOL_CREATOR, SPDX_VERSION,
};
pub use value::{ValueClone, ValueEq};
pub use value_set::{lemma_combine_set_union, ValueSet};
