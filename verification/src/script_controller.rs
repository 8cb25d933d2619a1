//! The scripting bridge and the typed mapper.
//!
//! The bridge composes the encoder and the process invoker: encode, invoke,
//! propagate. There are no retries: a failed launch signals an environment
//! problem that retrying cannot fix. The typed mapper then interprets the
//! captured bytes as UTF-8 (lossily, since the interpreter's encoding is
//! not under this crate's control) and decodes them against the requested
//! record's schema. The two failure modes stay distinct at every layer:
//! [`Error::LaunchFailed`] means the interpreter never answered, and
//! [`Error::DeserializationFailed`] means its answer did not match the
//! expected shape.

use vstd::prelude::*;
use vstd::string::StringExecFns;

use crate::encoder::SCRIPT_SOURCE;
use crate::encoder::payload_text;
use crate::error::Error;
use crate::invoker::ProcessError;
use crate::invoker::ProcessInvoker;
use crate::invoker::RawOutput;
use crate::request::LogicalRequest;
use crate::json::JsonModel;
use crate::json::JsonRecord;
use crate::json::parse_json;
use crate::json::sp_text;
use crate::text::bytes_to_string_lossy;
use crate::text::lossy_utf8;

verus! {

/// The arguments one interpreter invocation is given: the language flags,
/// the command text, and the optional parameter payload as one trailing
/// argument.
pub open spec fn spec_args(command: Seq<char>, params: Option<Seq<char>>) -> Seq<Seq<char>> {
    let base = seq!["-l"@, "JavaScript"@, "-e"@, command];
    match params {
        Some(p) => base.push(p),
        None => base,
    }
}

/// The record a raw output decodes to, if its bytes hold one: the stdout
/// bytes are decoded as UTF-8 (lossily), parsed as one JSON text, and held
/// against `T`'s schema.
pub open spec fn decodes_to<T: JsonRecord>(raw: RawOutput, t: T) -> bool {
    &&& sp_text(lossy_utf8(raw.stdout@)) matches Some(m)
    &&& T::json_ok(m)
    &&& t.matches_json(m)
}

/// A raw output holds no record of type `T`: either its stdout is not one
/// JSON text, or the value does not fit `T`'s schema.
pub open spec fn decode_fails<T: JsonRecord>(raw: RawOutput) -> bool {
    match sp_text(lossy_utf8(raw.stdout@)) {
        None => true,
        Some(m) => !T::json_ok(m),
    }
}

/// Marshals typed requests into interpreter invocations and decodes the
/// answers.
pub struct ScriptController;

impl ScriptController {
    /// Builds the fixed argument vector for one invocation.
    fn build_args(command: &str, params: Option<String>) -> (r: Vec<String>)
        ensures
            r.deep_view() == spec_args(
                command@,
                match params {
                    Some(p) => Some(p@),
                    None => None,
                },
            ),
    {
        let mut args: Vec<String> = Vec::new();
        args.push(String::from_str("-l"));
        args.push(String::from_str("JavaScript"));
        args.push(String::from_str("-e"));
        args.push(String::from_str(command));
        let ghost base = args.deep_view();
        match params {
            Some(p) => {
                args.push(p);
                proof {
                    assert(args.deep_view() =~~= base.push(args@.last()@));
                }
            },
            None => {},
        }
        proof {
            assert(args.deep_view() =~~= spec_args(
                command@,
                match params {
                    Some(p) => Some(p@),
                    None => None,
                },
            ));
        }
        args
    }

    /// Runs one command through the invoker. The captured output is
    /// returned as it came, whatever the exit status: only a failure to
    /// launch is an error here, and it is the only error this function
    /// can return.
    pub fn execute<I: ProcessInvoker>(
        &self,
        invoker: &I,
        command: &str,
        params: Option<String>,
    ) -> (r: Result<RawOutput, Error>)
        ensures
            r matches Err(e) ==> e == Error::LaunchFailed,
    {
        let args = Self::build_args(command, params);
        match invoker.run(&args) {
            Ok(data) => Ok(data),
            Err(ProcessError::LaunchFailed) => Err(Error::LaunchFailed),
        }
    }

    /// Executes one logical request at the transport level: encode,
    /// invoke, propagate. The captured output is returned whatever the
    /// exit status; the one possible error is a failure to launch.
    pub fn execute_request<I: ProcessInvoker>(&self, invoker: &I, request: &LogicalRequest) -> (r:
        Result<RawOutput, Error>)
        ensures
            r matches Err(e) ==> e == Error::LaunchFailed,
    {
        let (command, payload) = crate::encoder::encode(request);
        self.execute(invoker, command.as_str(), Some(payload))
    }

    /// Decodes the outcome of one invocation into a typed record. This is
    /// the whole decision logic of the typed mapper, on a value that has
    /// already come back:
    ///
    /// * a launch failure is propagated as [`Error::LaunchFailed`], and
    ///   nothing is parsed;
    /// * captured output yields `Ok` exactly when its stdout decodes as
    ///   one JSON value fitting `T`'s schema, and
    ///   [`Error::DeserializationFailed`] otherwise.
    pub fn map_output<T: JsonRecord>(output: Result<RawOutput, ProcessError>) -> (r: Result<
        T,
        Error,
    >)
        ensures
            output matches Err(_) ==> r matches Err(e) && e == Error::LaunchFailed,
            output matches Ok(raw) ==> match r {
                Ok(t) => decodes_to::<T>(raw, t),
                Err(e) => e == Error::DeserializationFailed && decode_fails::<T>(raw),
            },
    {
        let raw = match output {
            Ok(raw) => raw,
            Err(ProcessError::LaunchFailed) => {
                return Err(Error::LaunchFailed);
            },
        };
        let text = bytes_to_string_lossy(&raw.stdout);
        let value = match parse_json(text.as_str()) {
            Some(value) => value,
            None => {
                return Err(Error::DeserializationFailed);
            },
        };
        match T::from_json(&value) {
            Some(t) => Ok(t),
            None => Err(Error::DeserializationFailed),
        }
    }

    /// Renders the parameter payload for one request; see
    /// [`crate::encoder::render_payload`].
    pub fn generate_json(
        &self,
        param_type: crate::request::ParamType,
        id: Option<i32>,
        query: Option<&str>,
    ) -> (r: String)
        ensures
            r@ == crate::encoder::render_payload(
                crate::encoder::PayloadModel {
                    param_type: param_type.spec_name(),
                    id: match id {
                        Some(n) => Some(crate::text::dec_int(n as int)),
                        None => None,
                    },
                    query: match query {
                        Some(q) => Some(q@),
                        None => None,
                    },
                },
            ),
    {
        payload_text(param_type, id, query)
    }

    /// Executes one logical data request end to end: encode, invoke,
    /// decode. Whatever the interpreter answered, a success is a record
    /// that some JSON value of `T`'s schema denotes, and the only errors
    /// are the two transport-and-schema failures.
    pub fn execute_script<T: JsonRecord, I: ProcessInvoker>(
        &self,
        invoker: &I,
        param_type: crate::request::ParamType,
        id: Option<i32>,
        query: Option<&str>,
    ) -> (r: Result<T, Error>)
        ensures
            r matches Err(e) ==> (e == Error::LaunchFailed || e == Error::DeserializationFailed),
            r matches Ok(t) ==> exists|m: JsonModel| #[trigger]
                T::json_ok(m) && t.matches_json(m),
    {
        let params = self.generate_json(param_type, id, query);
        let script = String::from_str(SCRIPT_SOURCE);
        let output = match self.execute(invoker, script.as_str(), Some(params)) {
            Ok(raw) => Ok::<RawOutput, ProcessError>(raw),
            Err(_) => Err::<RawOutput, ProcessError>(ProcessError::LaunchFailed),
        };
        let r = Self::map_output::<T>(output);
        proof {
            if r is Ok {
                let m = sp_text(lossy_utf8(output->Ok_0.stdout@))->Some_0;
                assert(T::json_ok(m) && r->Ok_0.matches_json(m));
            }
        }
        r
    }
}

} // verus!
