//! Planning one ingestion run.
//!
//! The plan gathers everything the run needs before the first row is
//! touched: the physical topic, the iteration range, the validated formats
//! of both slots, and the headers every record will carry. Resolution
//! (registry calls, descriptor loading) and the publish loop follow the
//! plan.

use vstd::prelude::*;

use crate::errors::ErrorKind;
use crate::errors::IngestError;
use crate::formats::FormatSpec;
use crate::formats::IngestConfig;
use crate::formats::build_formats;
use crate::formats::clone_opt_string;
use crate::formats::spec_build_formats;
use crate::headers::HeaderEntry;
use crate::headers::build_headers;
use crate::headers::entries_model;
use crate::headers::spec_build_headers;
use crate::resolver::physical_topic;

verus! {

/// Everything one ingestion run needs before the first row is encoded.
#[derive(Debug)]
pub struct IngestPlan {
    pub topic_name: String,
    pub partition: Option<i32>,
    pub start_iteration: i64,
    pub repeat: i64,
    pub omit_key: bool,
    pub omit_value: bool,
    pub schema_id_var: Option<String>,
    pub key_schema_id_var: Option<String>,
    pub value_format: FormatSpec,
    pub key_format: Option<FormatSpec>,
    pub timestamp: Option<i64>,
    pub headers: Vec<HeaderEntry>,
}

/// Validates a configuration into a run plan: both slots' formats with
/// their joint rules, the header list every record will carry, and the
/// physical topic derived from the run-scoped seed. Every rejection is an
/// argument error.
pub fn plan_ingest(cfg: &IngestConfig, seed: &str) -> (r: Result<IngestPlan, IngestError>)
    ensures
        r matches Err(e) ==> e.kind == ErrorKind::Argument,
        spec_build_formats(cfg) is None ==> r is Err,
        (spec_build_formats(cfg) is Some && match cfg.headers {
            Option::Some(h) => spec_build_headers(h) is Some,
            Option::None => true,
        }) ==> r is Ok,
        (cfg.headers matches Option::Some(h) && spec_build_headers(h) is None) ==> r is Err,
        r matches Ok(p) ==> {
            &&& spec_build_formats(cfg) matches Option::Some(fs) && p.value_format == fs.0
                && p.key_format == fs.1
            &&& p.topic_name@ == "testdrive-"@ + cfg.topic@ + "-"@ + seed@
            &&& p.partition == cfg.partition
            &&& p.start_iteration == cfg.start_iteration
            &&& p.repeat == cfg.repeat
            &&& p.omit_key == cfg.omit_key
            &&& p.omit_value == cfg.omit_value
            &&& p.timestamp == cfg.timestamp
            &&& p.schema_id_var == cfg.schema_id_var
            &&& p.key_schema_id_var == cfg.key_schema_id_var
            &&& match cfg.headers {
                Option::Some(h) => spec_build_headers(h) == Option::Some(
                    entries_model(p.headers@),
                ),
                Option::None => p.headers@.len() == 0,
            }
        },
{
    let (value_format, key_format) = match build_formats(cfg) {
        Ok(fs) => fs,
        Err(e) => {
            return Err(e);
        },
    };
    let headers = match &cfg.headers {
        Option::Some(h) => match build_headers(h) {
            Ok(hs) => hs,
            Err(e) => {
                return Err(e);
            },
        },
        Option::None => Vec::new(),
    };
    Ok(
        IngestPlan {
            topic_name: physical_topic(cfg.topic.as_str(), seed),
            partition: cfg.partition,
            start_iteration: cfg.start_iteration,
            repeat: cfg.repeat,
            omit_key: cfg.omit_key,
            omit_value: cfg.omit_value,
            schema_id_var: clone_opt_string(&cfg.schema_id_var),
            key_schema_id_var: clone_opt_string(&cfg.key_schema_id_var),
            value_format,
            key_format,
            timestamp: cfg.timestamp,
            headers,
        },
    )
}

} // verus!
