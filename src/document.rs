use vstd::prelude::*;
use crate::value::{ValueClone, ValueEq};
use crate::value_set::ValueSet;

verus! {

/// An instant in UTC: whole seconds since the Unix epoch and the nanoseconds
/// past that second.
#[derive(Debug, Clone, Copy, Default, PartialEq, Eq, Structural)]
pub struct Timestamp {
    pub secs: i64,
    pub nanos: u32,
}

impl DeepView for Timestamp {
    type V = Timestamp;

    open spec fn deep_view(&self) -> Timestamp {
        *self
    }
}

impl ValueEq for Timestamp {
    fn value_eq(&self, other: &Timestamp) -> (r: bool) {
        *self == *other
    }
}

impl ValueClone for Timestamp {
    fn value_clone(&self) -> (r: Timestamp) {
        *self
    }
}

/// A checksum of a package, a file or a referenced document.
#[derive(Debug, Default)]
pub struct Checksum {
    pub algorithm: String,
    pub checksum_value: String,
}

/// The model of a [`Checksum`]: each field by its deep view.
#[verifier::ext_equal]
pub struct ChecksumModel {
    pub algorithm: Seq<char>,
    pub checksum_value: Seq<char>,
}

impl DeepView for Checksum {
    type V = ChecksumModel;

    open spec fn deep_view(&self) -> ChecksumModel {
        ChecksumModel {
            algorithm: self.algorithm.deep_view(),
            checksum_value: self.checksum_value.deep_view(),
        }
    }
}

impl ValueEq for Checksum {
    fn value_eq(&self, other: &Checksum) -> (r: bool) {
        self.algorithm.value_eq(&other.algorithm)
            && self.checksum_value.value_eq(&other.checksum_value)
    }
}

impl ValueClone for Checksum {
    fn value_clone(&self) -> (r: Checksum) {
        Checksum {
            algorithm: self.algorithm.value_clone(),
            checksum_value: self.checksum_value.value_clone(),
        }
    }
}

impl Clone for Checksum {
    fn clone(&self) -> (r: Checksum)
        ensures
            r.deep_view() == self.deep_view(),
    {
        self.value_clone()
    }
}

/// A reference to another SPDX document.
#[derive(Debug, Default)]
pub struct ExternalDocumentRef {
    pub external_document_id: String,
    pub checksum: Checksum,
    pub spdx_document: String,
}

/// The model of an [`ExternalDocumentRef`]: each field by its deep view.
#[verifier::ext_equal]
pub struct ExternalDocumentRefModel {
    pub external_document_id: Seq<char>,
    pub checksum: ChecksumModel,
    pub spdx_document: Seq<char>,
}

impl DeepView for ExternalDocumentRef {
    type V = ExternalDocumentRefModel;

    open spec fn deep_view(&self) -> ExternalDocumentRefModel {
        ExternalDocumentRefModel {
            external_document_id: self.external_document_id.deep_view(),
            checksum: self.checksum.deep_view(),
            spdx_document: self.spdx_document.deep_view(),
        }
    }
}

impl ValueEq for ExternalDocumentRef {
    fn value_eq(&self, other: &ExternalDocumentRef) -> (r: bool) {
        self.external_document_id.value_eq(&other.external_document_id)
            && self.checksum.value_eq(&other.checksum)
            && self.spdx_document.value_eq(&other.spdx_document)
    }
}

impl ValueClone for ExternalDocumentRef {
    fn value_clone(&self) -> (r: ExternalDocumentRef) {
        ExternalDocumentRef {
            external_document_id: self.external_document_id.value_clone(),
            checksum: self.checksum.value_clone(),
            spdx_document: self.spdx_document.value_clone(),
        }
    }
}

impl Clone for ExternalDocumentRef {
    fn clone(&self) -> (r: ExternalDocumentRef)
        ensures
            r.deep_view() == self.deep_view(),
    {
        self.value_clone()
    }
}

/// A license found in the material that is not on the SPDX license list.
#[derive(Debug, Default)]
pub struct HasExtractedLicensingInfo {
    pub license_id: String,
    pub extracted_text: String,
    pub comment: Option<String>,
    pub name: Option<String>,
    pub see_alsos: Option<Vec<String>>,
}

/// The model of a [`HasExtractedLicensingInfo`]: each field by its deep view.
#[verifier::ext_equal]
pub struct HasExtractedLicensingInfoModel {
    pub license_id: Seq<char>,
    pub extracted_text: Seq<char>,
    pub comment: Option<Seq<char>>,
    pub name: Option<Seq<char>>,
    pub see_alsos: Option<Seq<Seq<char>>>,
}

impl DeepView for HasExtractedLicensingInfo {
    type V = HasExtractedLicensingInfoModel;

    open spec fn deep_view(&self) -> HasExtractedLicensingInfoModel {
        HasExtractedLicensingInfoModel {
            license_id: self.license_id.deep_view(),
            extracted_text: self.extracted_text.deep_view(),
            comment: self.comment.deep_view(),
            name: self.name.deep_view(),
            see_alsos: self.see_alsos.deep_view(),
        }
    }
}

impl ValueEq for HasExtractedLicensingInfo {
    fn value_eq(&self, other: &HasExtractedLicensingInfo) -> (r: bool) {
        self.license_id.value_eq(&other.license_id)
            && self.extracted_text.value_eq(&other.extracted_text)
            && self.comment.value_eq(&other.comment)
            && self.name.value_eq(&other.name)
            && self.see_alsos.value_eq(&other.see_alsos)
    }
}

impl ValueClone for HasExtractedLicensingInfo {
    fn value_clone(&self) -> (r: HasExtractedLicensingInfo) {
        HasExtractedLicensingInfo {
            license_id: self.license_id.value_clone(),
            extracted_text: self.extracted_text.value_clone(),
            comment: self.comment.value_clone(),
            name: self.name.value_clone(),
            see_alsos: self.see_alsos.value_clone(),
        }
    }
}

impl Clone for HasExtractedLicensingInfo {
    fn clone(&self) -> (r: HasExtractedLicensingInfo)
        ensures
            r.deep_view() == self.deep_view(),
    {
        self.value_clone()
    }
}

/// A remark that a person or a tool made on an element.
#[derive(Debug, Default)]
pub struct Annotation {
    pub annotation_date: Timestamp,
    pub annotation_type: String,
    pub annotator: Option<String>,
    pub comment: Option<String>,
}

/// The model of an [`Annotation`]: each field by its deep view.
#[verifier::ext_equal]
pub struct AnnotationModel {
    pub annotation_date: Timestamp,
    pub annotation_type: Seq<char>,
    pub annotator: Option<Seq<char>>,
    pub comment: Option<Seq<char>>,
}

impl DeepView for Annotation {
    type V = AnnotationModel;

    open spec fn deep_view(&self) -> AnnotationModel {
        AnnotationModel {
            annotation_date: self.annotation_date.deep_view(),
            annotation_type: self.annotation_type.deep_view(),
            annotator: self.annotator.deep_view(),
            comment: self.comment.deep_view(),
        }
    }
}

impl ValueEq for Annotation {
    fn value_eq(&self, other: &Annotation) -> (r: bool) {
        self.annotation_date.value_eq(&other.annotation_date)
            && self.annotation_type.value_eq(&other.annotation_type)
            && self.annotator.value_eq(&other.annotator)
            && self.comment.value_eq(&other.comment)
    }
}

impl ValueClone for Annotation {
    fn value_clone(&self) -> (r: Annotation) {
        Annotation {
            annotation_date: self.annotation_date.value_clone(),
            annotation_type: self.annotation_type.value_clone(),
            annotator: self.annotator.value_clone(),
            comment: self.comment.value_clone(),
        }
    }
}

impl Clone for Annotation {
    fn clone(&self) -> (r: Annotation)
        ensures
            r.deep_view() == self.deep_view(),
    {
        self.value_clone()
    }
}

/// A reference from a package to a resource outside the document.
#[derive(Debug, Default)]
pub struct ExternalRef {
    pub reference_category: String,
    pub reference_locator: String,
    pub reference_type: String,
    pub comment: Option<String>,
}

/// The model of an [`ExternalRef`]: each field by its deep view.
#[verifier::ext_equal]
pub struct ExternalRefModel {
    pub reference_category: Seq<char>,
    pub reference_locator: Seq<char>,
    pub reference_type: Seq<char>,
    pub comment: Option<Seq<char>>,
}

impl DeepView for ExternalRef {
    type V = ExternalRefModel;

    open spec fn deep_view(&self) -> ExternalRefModel {
        ExternalRefModel {
            reference_category: self.reference_category.deep_view(),
            reference_locator: self.reference_locator.deep_view(),
            reference_type: self.reference_type.deep_view(),
            comment: self.comment.deep_view(),
        }
    }
}

impl ValueEq for ExternalRef {
    fn value_eq(&self, other: &ExternalRef) -> (r: bool) {
        self.reference_category.value_eq(&other.reference_category)
            && self.reference_locator.value_eq(&other.reference_locator)
            && self.reference_type.value_eq(&other.reference_type)
            && self.comment.value_eq(&other.comment)
    }
}

impl ValueClone for ExternalRef {
    fn value_clone(&self) -> (r: ExternalRef) {
        ExternalRef {
            reference_category: self.reference_category.value_clone(),
            reference_locator: self.reference_locator.value_clone(),
            reference_type: self.reference_type.value_clone(),
            comment: self.comment.value_clone(),
        }
    }
}

impl Clone for ExternalRef {
    fn clone(&self) -> (r: ExternalRef)
        ensures
            r.deep_view() == self.deep_view(),
    {
        self.value_clone()
    }
}

/// The verification code of a package's files.
#[derive(Debug, Default)]
pub struct PackageVerificationCode {
    pub package_verification_code_value: String,
    pub package_verification_code_excluded_files: Option<Vec<String>>,
}

/// The model of a [`PackageVerificationCode`]: each field by its deep view.
#[verifier::ext_equal]
pub struct PackageVerificationCodeModel {
    pub package_verification_code_value: Seq<char>,
    pub package_verification_code_excluded_files: Option<Seq<Seq<char>>>,
}

impl DeepView for PackageVerificationCode {
    type V = PackageVerificationCodeModel;

    open spec fn deep_view(&self) -> PackageVerificationCodeModel {
        PackageVerificationCodeModel {
            package_verification_code_value: self.package_verification_code_value.deep_view(),
            package_verification_code_excluded_files: self.package_verification_code_excluded_files.deep_view(),
        }
    }
}

impl ValueEq for PackageVerificationCode {
    fn value_eq(&self, other: &PackageVerificationCode) -> (r: bool) {
        self.package_verification_code_value.value_eq(&other.package_verification_code_value)
            && self.package_verification_code_excluded_files.value_eq(&other.package_verification_code_excluded_files)
    }
}

impl ValueClone for PackageVerificationCode {
    fn value_clone(&self) -> (r: PackageVerificationCode) {
        PackageVerificationCode {
            package_verification_code_value: self.package_verification_code_value.value_clone(),
            package_verification_code_excluded_files: self.package_verification_code_excluded_files.value_clone(),
        }
    }
}

impl Clone for PackageVerificationCode {
    fn clone(&self) -> (r: PackageVerificationCode)
        ensures
            r.deep_view() == self.deep_view(),
    {
        self.value_clone()
    }
}

/// A package described by the document.
#[derive(Debug, Default)]
pub struct Package {
    pub spdxid: String,
    pub supplier: String,
    pub name: String,
    pub version_info: String,
    pub annotations: ValueSet<Annotation>,
    pub attribution_texts: Vec<String>,
    pub built_date: Option<String>,
    pub checksums: ValueSet<Checksum>,
    pub download_location: String,
    pub external_refs: ValueSet<ExternalRef>,
    pub files_analyzed: bool,
    pub has_files: ValueSet<String>,
    pub copyright_text: Option<String>,
    pub description: Option<String>,
    pub homepage: Option<String>,
    pub license_comments: Option<String>,
    pub license_concluded: Option<String>,
    pub license_declared: Option<String>,
    pub license_info_from_files: Option<ValueSet<String>>,
    pub originator: Option<String>,
    pub package_file_name: Option<String>,
    pub package_verification_code: Option<PackageVerificationCode>,
    pub primary_package_purpose: Option<String>,
    pub release_date: Option<String>,
    pub source_info: Option<String>,
    pub summary: Option<String>,
    pub valid_until_date: Option<String>,
}

/// The model of a [`Package`]: each field by its deep view.
#[verifier::ext_equal]
pub struct PackageModel {
    pub spdxid: Seq<char>,
    pub supplier: Seq<char>,
    pub name: Seq<char>,
    pub version_info: Seq<char>,
    pub annotations: Set<AnnotationModel>,
    pub attribution_texts: Seq<Seq<char>>,
    pub built_date: Option<Seq<char>>,
    pub checksums: Set<ChecksumModel>,
    pub download_location: Seq<char>,
    pub external_refs: Set<ExternalRefModel>,
    pub files_analyzed: bool,
    pub has_files: Set<Seq<char>>,
    pub copyright_text: Option<Seq<char>>,
    pub description: Option<Seq<char>>,
    pub homepage: Option<Seq<char>>,
    pub license_comments: Option<Seq<char>>,
    pub license_concluded: Option<Seq<char>>,
    pub license_declared: Option<Seq<char>>,
    pub license_info_from_files: Option<Set<Seq<char>>>,
    pub originator: Option<Seq<char>>,
    pub package_file_name: Option<Seq<char>>,
    pub package_verification_code: Option<PackageVerificationCodeModel>,
    pub primary_package_purpose: Option<Seq<char>>,
    pub release_date: Option<Seq<char>>,
    pub source_info: Option<Seq<char>>,
    pub summary: Option<Seq<char>>,
    pub valid_until_date: Option<Seq<char>>,
}

impl DeepView for Package {
    type V = PackageModel;

    open spec fn deep_view(&self) -> PackageModel {
        PackageModel {
            spdxid: self.spdxid.deep_view(),
            supplier: self.supplier.deep_view(),
            name: self.name.deep_view(),
            version_info: self.version_info.deep_view(),
            annotations: self.annotations.deep_view(),
            attribution_texts: self.attribution_texts.deep_view(),
            built_date: self.built_date.deep_view(),
            checksums: self.checksums.deep_view(),
            download_location: self.download_location.deep_view(),
            external_refs: self.external_refs.deep_view(),
            files_analyzed: self.files_analyzed.deep_view(),
            has_files: self.has_files.deep_view(),
            copyright_text: self.copyright_text.deep_view(),
            description: self.description.deep_view(),
            homepage: self.homepage.deep_view(),
            license_comments: self.license_comments.deep_view(),
            license_concluded: self.license_concluded.deep_view(),
            license_declared: self.license_declared.deep_view(),
            license_info_from_files: self.license_info_from_files.deep_view(),
            originator: self.originator.deep_view(),
            package_file_name: self.package_file_name.deep_view(),
            package_verification_code: self.package_verification_code.deep_view(),
            primary_package_purpose: self.primary_package_purpose.deep_view(),
            release_date: self.release_date.deep_view(),
            source_info: self.source_info.deep_view(),
            summary: self.summary.deep_view(),
            valid_until_date: self.valid_until_date.deep_view(),
        }
    }
}

impl ValueEq for Package {
    fn value_eq(&self, other: &Package) -> (r: bool) {
        self.spdxid.value_eq(&other.spdxid)
            && self.supplier.value_eq(&other.supplier)
            && self.name.value_eq(&other.name)
            && self.version_info.value_eq(&other.version_info)
            && self.annotations.value_eq(&other.annotations)
            && self.attribution_texts.value_eq(&other.attribution_texts)
            && self.built_date.value_eq(&other.built_date)
            && self.checksums.value_eq(&other.checksums)
            && self.download_location.value_eq(&other.download_location)
            && self.external_refs.value_eq(&other.external_refs)
            && self.files_analyzed.value_eq(&other.files_analyzed)
            && self.has_files.value_eq(&other.has_files)
            && self.copyright_text.value_eq(&other.copyright_text)
            && self.description.value_eq(&other.description)
            && self.homepage.value_eq(&other.homepage)
            && self.license_comments.value_eq(&other.license_comments)
            && self.license_concluded.value_eq(&other.license_concluded)
            && self.license_declared.value_eq(&other.license_declared)
            && self.license_info_from_files.value_eq(&other.license_info_from_files)
            && self.originator.value_eq(&other.originator)
            && self.package_file_name.value_eq(&other.package_file_name)
            && self.package_verification_code.value_eq(&other.package_verification_code)
            && self.primary_package_purpose.value_eq(&other.primary_package_purpose)
            && self.release_date.value_eq(&other.release_date)
            && self.source_info.value_eq(&other.source_info)
            && self.summary.value_eq(&other.summary)
            && self.valid_until_date.value_eq(&other.valid_until_date)
    }
}

impl ValueClone for Package {
    fn value_clone(&self) -> (r: Package) {
        Package {
            spdxid: self.spdxid.value_clone(),
            supplier: self.supplier.value_clone(),
            name: self.name.value_clone(),
            version_info: self.version_info.value_clone(),
            annotations: self.annotations.value_clone(),
            attribution_texts: self.attribution_texts.value_clone(),
            built_date: self.built_date.value_clone(),
            checksums: self.checksums.value_clone(),
            download_location: self.download_location.value_clone(),
            external_refs: self.external_refs.value_clone(),
            files_analyzed: self.files_analyzed.value_clone(),
            has_files: self.has_files.value_clone(),
            copyright_text: self.copyright_text.value_clone(),
            description: self.description.value_clone(),
            homepage: self.homepage.value_clone(),
            license_comments: self.license_comments.value_clone(),
            license_concluded: self.license_concluded.value_clone(),
            license_declared: self.license_declared.value_clone(),
            license_info_from_files: self.license_info_from_files.value_clone(),
            originator: self.originator.value_clone(),
            package_file_name: self.package_file_name.value_clone(),
            package_verification_code: self.package_verification_code.value_clone(),
            primary_package_purpose: self.primary_package_purpose.value_clone(),
            release_date: self.release_date.value_clone(),
            source_info: self.source_info.value_clone(),
            summary: self.summary.value_clone(),
            valid_until_date: self.valid_until_date.value_clone(),
        }
    }
}

impl Clone for Package {
    fn clone(&self) -> (r: Package)
        ensures
            r.deep_view() == self.deep_view(),
    {
        self.value_clone()
    }
}

/// A file described by the document.
#[derive(Debug, Default)]
pub struct File {
    pub spdxid: String,
    pub checksums: Vec<Checksum>,
    pub file_contributors: ValueSet<String>,
    pub file_name: String,
    pub copyright_text: Option<String>,
    pub file_types: Option<ValueSet<String>>,
    pub license_concluded: Option<String>,
    pub license_info_in_files: Option<ValueSet<String>>,
    pub comment: Option<String>,
    pub notice_text: Option<String>,
    pub license_comments: Option<String>,
    pub annotations: Option<Vec<Annotation>>,
}

/// The model of a [`File`]: each field by its deep view.
#[verifier::ext_equal]
pub struct FileModel {
    pub spdxid: Seq<char>,
    pub checksums: Seq<ChecksumModel>,
    pub file_contributors: Set<Seq<char>>,
    pub file_name: Seq<char>,
    pub copyright_text: Option<Seq<char>>,
    pub file_types: Option<Set<Seq<char>>>,
    pub license_concluded: Option<Seq<char>>,
    pub license_info_in_files: Option<Set<Seq<char>>>,
    pub comment: Option<Seq<char>>,
    pub notice_text: Option<Seq<char>>,
    pub license_comments: Option<Seq<char>>,
    pub annotations: Option<Seq<AnnotationModel>>,
}

impl DeepView for File {
    type V = FileModel;

    open spec fn deep_view(&self) -> FileModel {
        FileModel {
            spdxid: self.spdxid.deep_view(),
            checksums: self.checksums.deep_view(),
            file_contributors: self.file_contributors.deep_view(),
            file_name: self.file_name.deep_view(),
            copyright_text: self.copyright_text.deep_view(),
            file_types: self.file_types.deep_view(),
            license_concluded: self.license_concluded.deep_view(),
            license_info_in_files: self.license_info_in_files.deep_view(),
            comment: self.comment.deep_view(),
            notice_text: self.notice_text.deep_view(),
            license_comments: self.license_comments.deep_view(),
            annotations: self.annotations.deep_view(),
        }
    }
}

impl ValueEq for File {
    fn value_eq(&self, other: &File) -> (r: bool) {
        self.spdxid.value_eq(&other.spdxid)
            && self.checksums.value_eq(&other.checksums)
            && self.file_contributors.value_eq(&other.file_contributors)
            && self.file_name.value_eq(&other.file_name)
            && self.copyright_text.value_eq(&other.copyright_text)
            && self.file_types.value_eq(&other.file_types)
            && self.license_concluded.value_eq(&other.license_concluded)
            && self.license_info_in_files.value_eq(&other.license_info_in_files)
            && self.comment.value_eq(&other.comment)
            && self.notice_text.value_eq(&other.notice_text)
            && self.license_comments.value_eq(&other.license_comments)
            && self.annotations.value_eq(&other.annotations)
    }
}

impl ValueClone for File {
    fn value_clone(&self) -> (r: File) {
        File {
            spdxid: self.spdxid.value_clone(),
            checksums: self.checksums.value_clone(),
            file_contributors: self.file_contributors.value_clone(),
            file_name: self.file_name.value_clone(),
            copyright_text: self.copyright_text.value_clone(),
            file_types: self.file_types.value_clone(),
            license_concluded: self.license_concluded.value_clone(),
            license_info_in_files: self.license_info_in_files.value_clone(),
            comment: self.comment.value_clone(),
            notice_text: self.notice_text.value_clone(),
            license_comments: self.license_comments.value_clone(),
            annotations: self.annotations.value_clone(),
        }
    }
}

impl Clone for File {
    fn clone(&self) -> (r: File)
        ensures
            r.deep_view() == self.deep_view(),
    {
        self.value_clone()
    }
}

/// The end of a snippet's range within its file.
#[derive(Debug, Default)]
pub struct EndPointer {
    pub reference: String,
    pub offset: Option<i64>,
    pub line_number: Option<i64>,
}

/// The model of an [`EndPointer`]: each field by its deep view.
#[verifier::ext_equal]
pub struct EndPointerModel {
    pub reference: Seq<char>,
    pub offset: Option<i64>,
    pub line_number: Option<i64>,
}

impl DeepView for EndPointer {
    type V = EndPointerModel;

    open spec fn deep_view(&self) -> EndPointerModel {
        EndPointerModel {
            reference: self.reference.deep_view(),
            offset: self.offset.deep_view(),
            line_number: self.line_number.deep_view(),
        }
    }
}

impl ValueEq for EndPointer {
    fn value_eq(&self, other: &EndPointer) -> (r: bool) {
        self.reference.value_eq(&other.reference)
            && self.offset.value_eq(&other.offset)
            && self.line_number.value_eq(&other.line_number)
    }
}

impl ValueClone for EndPointer {
    fn value_clone(&self) -> (r: EndPointer) {
        EndPointer {
            reference: self.reference.value_clone(),
            offset: self.offset.value_clone(),
            line_number: self.line_number.value_clone(),
        }
    }
}

impl Clone for EndPointer {
    fn clone(&self) -> (r: EndPointer)
        ensures
            r.deep_view() == self.deep_view(),
    {
        self.value_clone()
    }
}

/// The start of a snippet's range within its file.
#[derive(Debug, Default)]
pub struct StartPointer {
    pub reference: String,
    pub offset: Option<i64>,
    pub line_number: Option<i64>,
}

/// The model of a [`StartPointer`]: each field by its deep view.
#[verifier::ext_equal]
pub struct StartPointerModel {
    pub reference: Seq<char>,
    pub offset: Option<i64>,
    pub line_number: Option<i64>,
}

impl DeepView for StartPointer {
    type V = StartPointerModel;

    open spec fn deep_view(&self) -> StartPointerModel {
        StartPointerModel {
            reference: self.reference.deep_view(),
            offset: self.offset.deep_view(),
            line_number: self.line_number.deep_view(),
        }
    }
}

impl ValueEq for StartPointer {
    fn value_eq(&self, other: &StartPointer) -> (r: bool) {
        self.reference.value_eq(&other.reference)
            && self.offset.value_eq(&other.offset)
            && self.line_number.value_eq(&other.line_number)
    }
}

impl ValueClone for StartPointer {
    fn value_clone(&self) -> (r: StartPointer) {
        StartPointer {
            reference: self.reference.value_clone(),
            offset: self.offset.value_clone(),
            line_number: self.line_number.value_clone(),
        }
    }
}

impl Clone for StartPointer {
    fn clone(&self) -> (r: StartPointer)
        ensures
            r.deep_view() == self.deep_view(),
    {
        self.value_clone()
    }
}

/// A range of a file that a snippet covers.
#[derive(Debug, Default)]
pub struct Range {
    pub end_pointer: EndPointer,
    pub start_pointer: StartPointer,
}

/// The model of a [`Range`]: each field by its deep view.
#[verifier::ext_equal]
pub struct RangeModel {
    pub end_pointer: EndPointerModel,
    pub start_pointer: StartPointerModel,
}

impl DeepView for Range {
    type V = RangeModel;

    open spec fn deep_view(&self) -> RangeModel {
        RangeModel {
            end_pointer: self.end_pointer.deep_view(),
            start_pointer: self.start_pointer.deep_view(),
        }
    }
}

impl ValueEq for Range {
    fn value_eq(&self, other: &Range) -> (r: bool) {
        self.end_pointer.value_eq(&other.end_pointer)
            && self.start_pointer.value_eq(&other.start_pointer)
    }
}

impl ValueClone for Range {
    fn value_clone(&self) -> (r: Range) {
        Range {
            end_pointer: self.end_pointer.value_clone(),
            start_pointer: self.start_pointer.value_clone(),
        }
    }
}

impl Clone for Range {
    fn clone(&self) -> (r: Range)
        ensures
            r.deep_view() == self.deep_view(),
    {
        self.value_clone()
    }
}

/// A part of a file described by the document.
#[derive(Debug, Default)]
pub struct Snippet {
    pub spdxid: String,
    pub comment: String,
    pub copyright_text: String,
    pub license_comments: String,
    pub license_concluded: String,
    pub license_info_in_snippets: ValueSet<String>,
    pub name: String,
    pub ranges: Vec<Range>,
    pub snippet_from_file: String,
}

/// The model of a [`Snippet`]: each field by its deep view.
#[verifier::ext_equal]
pub struct SnippetModel {
    pub spdxid: Seq<char>,
    pub comment: Seq<char>,
    pub copyright_text: Seq<char>,
    pub license_comments: Seq<char>,
    pub license_concluded: Seq<char>,
    pub license_info_in_snippets: Set<Seq<char>>,
    pub name: Seq<char>,
    pub ranges: Seq<RangeModel>,
    pub snippet_from_file: Seq<char>,
}

impl DeepView for Snippet {
    type V = SnippetModel;

    open spec fn deep_view(&self) -> SnippetModel {
        SnippetModel {
            spdxid: self.spdxid.deep_view(),
            comment: self.comment.deep_view(),
            copyright_text: self.copyright_text.deep_view(),
            license_comments: self.license_comments.deep_view(),
            license_concluded: self.license_concluded.deep_view(),
            license_info_in_snippets: self.license_info_in_snippets.deep_view(),
            name: self.name.deep_view(),
            ranges: self.ranges.deep_view(),
            snippet_from_file: self.snippet_from_file.deep_view(),
        }
    }
}

impl ValueEq for Snippet {
    fn value_eq(&self, other: &Snippet) -> (r: bool) {
        self.spdxid.value_eq(&other.spdxid)
            && self.comment.value_eq(&other.comment)
            && self.copyright_text.value_eq(&other.copyright_text)
            && self.license_comments.value_eq(&other.license_comments)
            && self.license_concluded.value_eq(&other.license_concluded)
            && self.license_info_in_snippets.value_eq(&other.license_info_in_snippets)
            && self.name.value_eq(&other.name)
            && self.ranges.value_eq(&other.ranges)
            && self.snippet_from_file.value_eq(&other.snippet_from_file)
    }
}

impl ValueClone for Snippet {
    fn value_clone(&self) -> (r: Snippet) {
        Snippet {
            spdxid: self.spdxid.value_clone(),
            comment: self.comment.value_clone(),
            copyright_text: self.copyright_text.value_clone(),
            license_comments: self.license_comments.value_clone(),
            license_concluded: self.license_concluded.value_clone(),
            license_info_in_snippets: self.license_info_in_snippets.value_clone(),
            name: self.name.value_clone(),
            ranges: self.ranges.value_clone(),
            snippet_from_file: self.snippet_from_file.value_clone(),
        }
    }
}

impl Clone for Snippet {
    fn clone(&self) -> (r: Snippet)
        ensures
            r.deep_view() == self.deep_view(),
    {
        self.value_clone()
    }
}

/// A relationship between two elements.
#[derive(Debug, Default)]
pub struct Relationship {
    pub spdx_element_id: String,
    pub relationship_type: String,
    pub related_spdx_element: String,
}

/// The model of a [`Relationship`]: each field by its deep view.
#[verifier::ext_equal]
pub struct RelationshipModel {
    pub spdx_element_id: Seq<char>,
    pub relationship_type: Seq<char>,
    pub related_spdx_element: Seq<char>,
}

impl DeepView for Relationship {
    type V = RelationshipModel;

    open spec fn deep_view(&self) -> RelationshipModel {
        RelationshipModel {
            spdx_element_id: self.spdx_element_id.deep_view(),
            relationship_type: self.relationship_type.deep_view(),
            related_spdx_element: self.related_spdx_element.deep_view(),
        }
    }
}

impl ValueEq for Relationship {
    fn value_eq(&self, other: &Relationship) -> (r: bool) {
        self.spdx_element_id.value_eq(&other.spdx_element_id)
            && self.relationship_type.value_eq(&other.relationship_type)
            && self.related_spdx_element.value_eq(&other.related_spdx_element)
    }
}

impl ValueClone for Relationship {
    fn value_clone(&self) -> (r: Relationship) {
        Relationship {
            spdx_element_id: self.spdx_element_id.value_clone(),
            relationship_type: self.relationship_type.value_clone(),
            related_spdx_element: self.related_spdx_element.value_clone(),
        }
    }
}

impl Clone for Relationship {
    fn clone(&self) -> (r: Relationship)
        ensures
            r.deep_view() == self.deep_view(),
    {
        self.value_clone()
    }
}

/// When and by whom a document was created.
#[derive(Debug, Default)]
pub struct CreationInfo {
    pub created: Timestamp,
    pub creators: ValueSet<String>,
    pub comment: Option<String>,
    pub license_list_version: Option<String>,
}

/// The model of a [`CreationInfo`]: each field by its deep view.
#[verifier::ext_equal]
pub struct CreationInfoModel {
    pub created: Timestamp,
    pub creators: Set<Seq<char>>,
    pub comment: Option<Seq<char>>,
    pub license_list_version: Option<Seq<char>>,
}

impl DeepView for CreationInfo {
    type V = CreationInfoModel;

    open spec fn deep_view(&self) -> CreationInfoModel {
        CreationInfoModel {
            created: self.created.deep_view(),
            creators: self.creators.deep_view(),
            comment: self.comment.deep_view(),
            license_list_version: self.license_list_version.deep_view(),
        }
    }
}

impl ValueClone for CreationInfo {
    fn value_clone(&self) -> (r: CreationInfo) {
        CreationInfo {
            created: self.created.value_clone(),
            creators: self.creators.value_clone(),
            comment: self.comment.value_clone(),
            license_list_version: self.license_list_version.value_clone(),
        }
    }
}

impl Clone for CreationInfo {
    fn clone(&self) -> (r: CreationInfo)
        ensures
            r.deep_view() == self.deep_view(),
    {
        self.value_clone()
    }
}

/// A software bill of materials: an SPDX document.
#[derive(Debug, Default)]
pub struct Sbom {
    pub spdxid: String,
    pub spdx_version: String,
    pub data_license: String,
    pub creation_info: CreationInfo,
    pub document_namespace: String,
    pub name: String,
    pub packages: ValueSet<Package>,
    pub relationships: ValueSet<Relationship>,
    pub comment: Option<String>,
    pub external_document_refs: Option<ValueSet<ExternalDocumentRef>>,
    pub has_extracted_licensing_infos: Option<ValueSet<HasExtractedLicensingInfo>>,
    pub annotations: Option<ValueSet<Annotation>>,
    pub document_describes: Option<ValueSet<String>>,
    pub files: Option<ValueSet<File>>,
    pub snippets: Option<ValueSet<Snippet>>,
}

/// The model of an [`Sbom`]: each field by its deep view.
#[verifier::ext_equal]
pub struct SbomModel {
    pub spdxid: Seq<char>,
    pub spdx_version: Seq<char>,
    pub data_license: Seq<char>,
    pub creation_info: CreationInfoModel,
    pub document_namespace: Seq<char>,
    pub name: Seq<char>,
    pub packages: Set<PackageModel>,
    pub relationships: Set<RelationshipModel>,
    pub comment: Option<Seq<char>>,
    pub external_document_refs: Option<Set<ExternalDocumentRefModel>>,
    pub has_extracted_licensing_infos: Option<Set<HasExtractedLicensingInfoModel>>,
    pub annotations: Option<Set<AnnotationModel>>,
    pub document_describes: Option<Set<Seq<char>>>,
    pub files: Option<Set<FileModel>>,
    pub snippets: Option<Set<SnippetModel>>,
}

impl DeepView for Sbom {
    type V = SbomModel;

    open spec fn deep_view(&self) -> SbomModel {
        SbomModel {
            spdxid: self.spdxid.deep_view(),
            spdx_version: self.spdx_version.deep_view(),
            data_license: self.data_license.deep_view(),
            creation_info: self.creation_info.deep_view(),
            document_namespace: self.document_namespace.deep_view(),
            name: self.name.deep_view(),
            packages: self.packages.deep_view(),
            relationships: self.relationships.deep_view(),
            comment: self.comment.deep_view(),
            external_document_refs: self.external_document_refs.deep_view(),
            has_extracted_licensing_infos: self.has_extracted_licensing_infos.deep_view(),
            annotations: self.annotations.deep_view(),
            document_describes: self.document_describes.deep_view(),
            files: self.files.deep_view(),
            snippets: self.snippets.deep_view(),
        }
    }
}

impl ValueClone for Sbom {
    fn value_clone(&self) -> (r: Sbom) {
        Sbom {
            spdxid: self.spdxid.value_clone(),
            spdx_version: self.spdx_version.value_clone(),
            data_license: self.data_license.value_clone(),
            creation_info: self.creation_info.value_clone(),
            document_namespace: self.document_namespace.value_clone(),
            name: self.name.value_clone(),
            packages: self.packages.value_clone(),
            relationships: self.relationships.value_clone(),
            comment: self.comment.value_clone(),
            external_document_refs: self.external_document_refs.value_clone(),
            has_extracted_licensing_infos: self.has_extracted_licensing_infos.value_clone(),
            annotations: self.annotations.value_clone(),
            document_describes: self.document_describes.value_clone(),
            files: self.files.value_clone(),
            snippets: self.snippets.value_clone(),
        }
    }
}

impl Clone for Sbom {
    fn clone(&self) -> (r: Sbom)
        ensures
            r.deep_view() == self.deep_view(),
    {
        self.value_clone()
    }
}

} // verus!
