use vstd::prelude::*;
use vstd::string::StringExecFns;
use crate::combinable::{combined_opt, combined_text, Combinable};
use crate::document::{
    Annotation, CreationInfo, CreationInfoModel, ExternalDocumentRef, File,
    HasExtractedLicensingInfo, Sbom, SbomModel, Snippet, Timestamp,
};
use crate::value_set::ValueSet;

verus! {

/// The one SPDX version that both documents of a merge must declare.
pub const SPDX_VERSION: &'static str = "SPDX-2.3";

/// The creator that every merged document names, recording this tool.
pub const MERGE_TOOL_CREATOR: &'static str = "Tool: Guardian.com-Merge-SBOM";

/// The locations of the two documents to merge.
#[derive(Debug)]
pub struct Paths {
    /// Path of the first SBOM file
    pub path1: String,
    /// Path of the second SBOM file
    pub path2: String,
}

impl Clone for Paths {
    fn clone(&self) -> (r: Paths)
        ensures
            r.path1@ == self.path1@,
            r.path2@ == self.path2@,
    {
        Paths { path1: self.path1.clone(), path2: self.path2.clone() }
    }
}

/// Why two documents could not be merged.
#[derive(Debug)]
pub enum MergeError {
    /// The documents do not both declare [`SPDX_VERSION`]; holds the versions
    /// that the first and the second document declare.
    VersionMismatch { first: String, second: String },
}

impl MergeError {
    /// A description of the error for a user.
    pub fn message(&self) -> (r: String)
        ensures
            (match self {
                MergeError::VersionMismatch { first, second } => r@
                    == "Version mismatch: SPDX version in both files must be "@ + SPDX_VERSION@
                    + ", found "@ + first@ + " and "@ + second@,
            }),
    {
        match self {
            MergeError::VersionMismatch { first, second } => {
                let r = String::from_str("Version mismatch: SPDX version in both files must be ");
                r.concat(SPDX_VERSION).concat(", found ").concat(first.as_str()).concat(
                    " and ",
                ).concat(second.as_str())
            },
        }
    }
}

/// Whether a document declares the supported SPDX version.
pub open spec fn version_supported(d: SbomModel) -> bool {
    d.spdx_version == SPDX_VERSION@
}

/// The model of the document that merging `a` with `b` at the instant
/// `created` produces.
///
/// The identifier and version come from `a`; the name always joins both
/// names; the creators are those of both documents and [`MERGE_TOOL_CREATOR`];
/// every other field combines by the rule of its type.
pub open spec fn merged_model(a: SbomModel, b: SbomModel, created: Timestamp) -> SbomModel {
    SbomModel {
        spdxid: a.spdxid,
        spdx_version: a.spdx_version,
        data_license: combined_text(a.data_license, b.data_license),
        creation_info: CreationInfoModel {
            created,
            creators: a.creation_info.creators.union(b.creation_info.creators).insert(
                MERGE_TOOL_CREATOR@,
            ),
            comment: combined_opt::<String>(a.creation_info.comment, b.creation_info.comment),
            license_list_version: combined_opt::<String>(
                a.creation_info.license_list_version,
                b.creation_info.license_list_version,
            ),
        },
        document_namespace: combined_text(a.document_namespace, b.document_namespace),
        name: a.name + " AND "@ + b.name,
        packages: a.packages.union(b.packages),
        relationships: a.relationships.union(b.relationships),
        comment: combined_opt::<String>(a.comment, b.comment),
        external_document_refs: combined_opt::<ValueSet<ExternalDocumentRef>>(
            a.external_document_refs,
            b.external_document_refs,
        ),
        has_extracted_licensing_infos: combined_opt::<ValueSet<HasExtractedLicensingInfo>>(
            a.has_extracted_licensing_infos,
            b.has_extracted_licensing_infos,
        ),
        annotations: combined_opt::<ValueSet<Annotation>>(a.annotations, b.annotations),
        document_describes: combined_opt::<ValueSet<String>>(
            a.document_describes,
            b.document_describes,
        ),
        files: combined_opt::<ValueSet<File>>(a.files, b.files),
        snippets: combined_opt::<ValueSet<Snippet>>(a.snippets, b.snippets),
    }
}

/// Merges two documents into one, stamping the result as created at
/// `created`, the instant of the merge that the caller reads from its clock.
///
/// Fails, before anything is combined, unless both documents declare
/// [`SPDX_VERSION`].
pub fn merge_at(sbom1: Sbom, sbom2: Sbom, created: Timestamp) -> (r: Result<Sbom, MergeError>)
    ensures
        r is Ok <==> version_supported(sbom1.deep_view()) && version_supported(sbom2.deep_view()),
        (match r {
            Ok(m) => m.deep_view() == merged_model(sbom1.deep_view(), sbom2.deep_view(), created),
            Err(MergeError::VersionMismatch { first, second }) => first@ == sbom1.spdx_version@
                && second@ == sbom2.spdx_version@,
        }),
{
    let version = String::from_str(SPDX_VERSION);
    if sbom1.spdx_version != version || sbom2.spdx_version != version {
        return Err(MergeError::VersionMismatch { first: sbom1.spdx_version, second: sbom2.spdx_version });
    }
    let mut creators = sbom1.creation_info.creators.combine(sbom2.creation_info.creators);
    creators.insert(String::from_str(MERGE_TOOL_CREATOR));
    let merged = Sbom {
        spdxid: sbom1.spdxid,
        spdx_version: sbom1.spdx_version,
        creation_info: CreationInfo {
            license_list_version: sbom1.creation_info.license_list_version.combine(
                sbom2.creation_info.license_list_version,
            ),
            created,
            creators,
            comment: sbom1.creation_info.comment.combine(sbom2.creation_info.comment),
        },
        name: sbom1.name.concat(" AND ").concat(sbom2.name.as_str()),
        data_license: sbom1.data_license.combine(sbom2.data_license),
        comment: sbom1.comment.combine(sbom2.comment),
        external_document_refs: sbom1.external_document_refs.combine(sbom2.external_document_refs),
        has_extracted_licensing_infos: sbom1.has_extracted_licensing_infos.combine(
            sbom2.has_extracted_licensing_infos,
        ),
        annotations: sbom1.annotations.combine(sbom2.annotations),
        document_describes: sbom1.document_describes.combine(sbom2.document_describes),
        document_namespace: sbom1.document_namespace.combine(sbom2.document_namespace),
        packages: sbom1.packages.combine(sbom2.packages),
        files: sbom1.files.combine(sbom2.files),
        relationships: sbom1.relationships.combine(sbom2.relationships),
        snippets: sbom1.snippets.combine(sbom2.snippets),
    };
    proof {
        assert(merged.deep_view() =~= merged_model(sbom1.deep_view(), sbom2.deep_view(), created));
    }
    Ok(merged)
}

/// A merged document always names [`MERGE_TOOL_CREATOR`] among its creators,
/// as one member of the set: apart from it, the creators are exactly those of
/// the two inputs, and an input that already named it adds nothing more.
pub proof fn lemma_merge_names_tool(a: SbomModel, b: SbomModel, created: Timestamp)
    ensures
        merged_model(a, b, created).creation_info.creators.contains(MERGE_TOOL_CREATOR@),
        merged_model(a, b, created).creation_info.creators.remove(MERGE_TOOL_CREATOR@)
            == a.creation_info.creators.union(b.creation_info.creators).remove(MERGE_TOOL_CREATOR@),
        a.creation_info.creators.contains(MERGE_TOOL_CREATOR@)
            || b.creation_info.creators.contains(MERGE_TOOL_CREATOR@)
            ==> merged_model(a, b, created).creation_info.creators
            == a.creation_info.creators.union(b.creation_info.creators),
{
    let both = a.creation_info.creators.union(b.creation_info.creators);
    assert(both.insert(MERGE_TOOL_CREATOR@).remove(MERGE_TOOL_CREATOR@) =~= both.remove(
        MERGE_TOOL_CREATOR@,
    ));
    if both.contains(MERGE_TOOL_CREATOR@) {
        assert(both.insert(MERGE_TOOL_CREATOR@) =~= both);
    }
}

} // verus!
