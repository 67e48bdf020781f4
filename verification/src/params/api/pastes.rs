//! The fields of the JSON API's paste requests.
use crate::params::pastes::{
    body_param_errors, description_param_errors, filename_param_errors, merge_field,
    paste_params_report, BodyParam, DescriptionParam, FilenameParam, VisibilityParam,
    BODY_REPORT_KEY, DESCRIPTION_REPORT_KEY, FILENAME_REPORT_KEY,
};
use crate::params::prelude::{merged, reports, single_field, Report, ReportView, Result};
use vstd::prelude::*;

verus! {

/// The fields of a request that creates a paste.
pub struct CreatePasteParams {
    pub filename: FilenameParam,
    pub description: DescriptionParam,
    pub body: BodyParam,
    pub visibility: VisibilityParam,
}

impl CreatePasteParams {
    /// Reports every field that breaks its rule; `Ok` when none does.
    pub fn validate(&self) -> (r: Result<()>)
        ensures
            reports(
                r,
                paste_params_report(
                    self.filename.text(),
                    self.description.text(),
                    self.body.text(),
                ),
            ),
    {
        let mut report = Report::new();
        merge_field(&mut report, self.filename.validate(), Ghost(single_field(FILENAME_REPORT_KEY@, filename_param_errors(self.filename.text()))));
        merge_field(&mut report, self.description.validate(), Ghost(single_field(DESCRIPTION_REPORT_KEY@, description_param_errors(self.description.text()))));
        merge_field(&mut report, self.body.validate(), Ghost(single_field(BODY_REPORT_KEY@, body_param_errors(self.body.text()))));
        report.to_result()
    }
}

/// The report of a field that may be left out: nothing when it is.
pub open spec fn optional_field_report(
    field: Seq<char>,
    text: Option<Seq<char>>,
    errors: spec_fn(Seq<char>) -> Seq<Seq<char>>,
) -> ReportView {
    match text {
        Some(t) => single_field(field, errors(t)),
        None => Map::empty(),
    }
}

/// The fields of a request that edits a paste; a field left out is left unchanged.
pub struct UpdatePasteParams {
    pub filename: Option<FilenameParam>,
    pub description: Option<DescriptionParam>,
    pub body: Option<BodyParam>,
}

impl UpdatePasteParams {
    /// The report of the fields that are present.
    pub open spec fn report_view(&self) -> ReportView {
        merged(
            merged(
                merged(
                    Map::empty(),
                    optional_field_report(
                        FILENAME_REPORT_KEY@,
                        match self.filename { Some(f) => Some(f.text()), None => None },
                        |t: Seq<char>| filename_param_errors(t),
                    ),
                ),
                optional_field_report(
                    DESCRIPTION_REPORT_KEY@,
                    match self.description { Some(d) => Some(d.text()), None => None },
                    |t: Seq<char>| description_param_errors(t),
                ),
            ),
            optional_field_report(
                BODY_REPORT_KEY@,
                match self.body { Some(b) => Some(b.text()), None => None },
                |t: Seq<char>| body_param_errors(t),
            ),
        )
    }

    /// Reports every present field that breaks its rule; `Ok` when none does.
    pub fn validate(&self) -> (r: Result<()>)
        ensures
            reports(r, self.report_view()),
    {
        let mut report = Report::new();
        if let Some(filename) = &self.filename {
            merge_field(&mut report, filename.validate(), Ghost(single_field(FILENAME_REPORT_KEY@, filename_param_errors(filename.text()))));
        } else {
            assert(merged(report@, Map::empty()) =~= report@);
        }
        if let Some(description) = &self.description {
            merge_field(&mut report, description.validate(), Ghost(single_field(DESCRIPTION_REPORT_KEY@, description_param_errors(description.text()))));
        } else {
            assert(merged(report@, Map::empty()) =~= report@);
        }
        if let Some(body) = &self.body {
            merge_field(&mut report, body.validate(), Ghost(single_field(BODY_REPORT_KEY@, body_param_errors(body.text()))));
        } else {
            assert(merged(report@, Map::empty()) =~= report@);
        }
        report.to_result()
    }
}

} // verus!
