//! The request orchestration pipeline: an explicit state machine, linear with
//! a single failure sink. Each stage's transition logs its progress or
//! failure entry, a failing stage moves to cleaning up and then to the failed
//! terminal, and the terminals are reachable only through the cleanup stage,
//! so workspace and archive removal is unconditional on every exit path.
//! Persist failures are advisory and never change the decided outcome.

use vstd::prelude::*;
use crate::archive::{
    all_entries_fit, archive_entries, build_archive, entries_view, entry_fits, zip_encoding_of,
    WalkEntry,
};
use crate::llm::{
    build_prompt, lookup, process_generation_response, spec_generation_result, spec_prompt,
    GeneratedFiles,
};
use crate::jsonfmt::json_quoted;
use crate::storage::Storage;

verus! {

/// One accepted generation request, immutable once accepted.
pub struct GenerationRequest {
    pub oam_url: String,
    pub external_id: String,
    pub provider: String,
    pub tool: String,
}

/// One record of the per-request audit trail: the output location where one
/// is known, a code (0 progress, 1 stage failure) and a message. The caller
/// renders each with a timestamp via the log-line formatter and appends it to
/// the workspace's request log.
pub struct LogRecord {
    pub out_dir: String,
    pub code: i32,
    pub message: String,
}

impl LogRecord {
    /// The record as a triple of plain values.
    pub open spec fn view3(self) -> (Seq<char>, int, Seq<char>) {
        (self.out_dir@, self.code as int, self.message@)
    }
}

/// A log as a sequence of triples.
pub open spec fn log_view(v: Seq<LogRecord>) -> Seq<(Seq<char>, int, Seq<char>)> {
    v.map_values(|r: LogRecord| r.view3())
}

/// The pipeline's stages. Progress is linear; every failure moves to
/// `CleaningUp` with a failure outcome, and `on_cleanup_done` alone reaches
/// the terminals, `Done` from a success outcome and `Failed` from a failure.
pub enum Stage {
    Fetching,
    Prompting,
    Generating,
    Materializing,
    Archiving,
    Uploading,
    Persisting,
    CleaningUp,
    Done,
    Failed,
}

/// One pipeline run for one request: the state machine together with what
/// the stages have produced so far and the audit trail.
pub struct Pipeline {
    pub request: GenerationRequest,
    pub stage: Stage,
    pub oam_yaml: Option<String>,
    pub files: Option<GeneratedFiles>,
    pub archive: Option<Vec<u8>>,
    pub storage_path: Option<String>,
    pub outcome: Option<Result<String, String>>,
    pub log: Vec<LogRecord>,
}

/// The object key an archive is stored under: the external id, the upload
/// timestamp, and the archive suffix.
pub open spec fn spec_object_key(external_id: Seq<char>, timestamp: Seq<char>) -> Seq<char> {
    external_id + "/"@ + timestamp + ".zip"@
}

/// The success response message for a storage path.
pub open spec fn spec_success_message(path: Seq<char>) -> Seq<char> {
    "Successfully generated and uploaded IaC to "@ + path
}

/// The success response body: a JSON object holding the deploy script (empty
/// where none was generated) and the message.
pub open spec fn spec_success_body(message: Seq<char>, deploy_script: Seq<char>) -> Seq<char> {
    "{\"deploy_script\":"@ + json_quoted(deploy_script) + ",\"message\":"@ + json_quoted(message)
        + "}"@
}

/// The deploy script exposed on success: the generated `deploy.sh` content,
/// or empty where none was generated.
pub open spec fn spec_deploy_script(files: GeneratedFiles) -> Seq<char> {
    match lookup(files.pairs(), "deploy.sh"@) {
        Some(c) => c,
        None => Seq::empty(),
    }
}

fn concat2(a: &str, b: &str) -> (r: String)
    ensures
        r@ == a@ + b@,
{
    let mut out = String::new();
    out.append(a);
    out.append(b);
    proof {
        assert(out@ =~= a@ + b@);
    }
    out
}

impl Pipeline {
    /// Well-formed: each stage holds what the stages before it owe it, the
    /// outcome is decided exactly from the upload stage or a failure on, and
    /// a terminal's outcome matches the terminal.
    pub open spec fn wf(self) -> bool {
        &&& ((self.stage is Prompting || self.stage is Generating) ==> self.oam_yaml is Some)
        &&& ((self.stage is Fetching || self.stage is Prompting || self.stage is Generating)
            ==> (self.files is None && self.archive is None && self.outcome is None))
        &&& (self.stage is Materializing ==> (self.files is Some && self.archive is None
            && self.outcome is None))
        &&& (self.stage is Archiving ==> (self.files is Some && self.outcome is None))
        &&& (self.stage is Uploading ==> (self.files is Some && self.outcome is None))
        &&& (self.stage is Persisting ==> (self.outcome matches Some(o) && o is Ok))
        &&& (self.stage is CleaningUp ==> self.outcome is Some)
        &&& (self.stage is Done ==> (self.outcome matches Some(o) && o is Ok))
        &&& (self.stage is Failed ==> (self.outcome matches Some(o) && o is Err))
        &&& ((self.outcome matches Some(o) && o is Ok) ==> (self.files is Some
            && self.storage_path is Some))
        &&& (self.files matches Some(g) ==> g.wf())
    }

    /// Accepts a request: the pipeline starts fetching, with the fetch
    /// progress entry already logged.
    pub fn new(request: GenerationRequest) -> (p: Pipeline)
        ensures
            p.wf(),
            p.stage is Fetching,
            p.request == request,
            p.oam_yaml is None && p.files is None && p.archive is None && p.outcome is None
                && p.storage_path is None,
            log_view(p.log@) =~= seq![(Seq::<char>::empty(), 0int, "Fetching OAM file..."@)],
    {
        let mut log: Vec<LogRecord> = Vec::new();
        log.push(
            LogRecord {
                out_dir: String::new(),
                code: 0,
                message: String::from_str("Fetching OAM file..."),
            },
        );
        Pipeline {
            request,
            stage: Stage::Fetching,
            oam_yaml: None,
            files: None,
            archive: None,
            storage_path: None,
            outcome: None,
            log,
        }
    }

    /// The spec content arrived: record it, log the fetch success, move to
    /// prompting.
    pub fn on_fetch_ok(&mut self, oam_yaml: String)
        requires
            old(self).wf(),
            old(self).stage is Fetching,
        ensures
            final(self).wf(),
            final(self).stage is Prompting,
            final(self).request == old(self).request,
            final(self).oam_yaml == Some(oam_yaml),
            final(self).files is None && final(self).archive is None && final(self).outcome
                is None,
            log_view(final(self).log@) =~= log_view(old(self).log@).push(
                (Seq::<char>::empty(), 0int, "Successfully fetched OAM file."@),
            ),
    {
        self.oam_yaml = Some(oam_yaml);
        self.stage = Stage::Prompting;
        let ghost pre = self.log@;
        self.log.push(
            LogRecord {
                out_dir: String::new(),
                code: 0,
                message: String::from_str("Successfully fetched OAM file."),
            },
        );
        proof {
            assert(log_view(self.log@) =~= log_view(pre).push(
                (Seq::<char>::empty(), 0int, "Successfully fetched OAM file."@),
            ));
        }
    }

    /// The spec could not be fetched: log the code-1 entry with the failing
    /// stage's message — the fetch of the URL or the read of its content —
    /// decide the failure outcome, and move to cleaning up.
    pub fn on_fetch_err(&mut self, url_error: bool, detail: &str)
        requires
            old(self).wf(),
            old(self).stage is Fetching,
        ensures
            final(self).wf(),
            final(self).stage is CleaningUp,
            final(self).request == old(self).request,
            final(self).files is None && final(self).archive is None,
            final(self).outcome matches Some(o) && o matches Err(m) && m@ == (if url_error {
                "Failed to fetch OAM file URL: "@ + detail@
            } else {
                "Failed to read OAM file content: "@ + detail@
            }),
            log_view(final(self).log@) =~= log_view(old(self).log@).push(
                (
                    Seq::<char>::empty(),
                    1int,
                    if url_error {
                        "Failed to fetch OAM file URL: "@ + detail@
                    } else {
                        "Failed to read OAM file content: "@ + detail@
                    },
                ),
            ),
    {
        let msg = if url_error {
            concat2("Failed to fetch OAM file URL: ", detail)
        } else {
            concat2("Failed to read OAM file content: ", detail)
        };
        let ghost mv = msg@;
        let ghost pre = self.log@;
        self.log.push(LogRecord { out_dir: String::new(), code: 1, message: msg.clone() });
        self.outcome = Some(Err(msg));
        self.stage = Stage::CleaningUp;
        proof {
            assert(log_view(self.log@) =~= log_view(pre).push((Seq::<char>::empty(), 1int, mv)));
        }
    }

    /// Builds the generation prompt from the fetched spec, logs that
    /// generation starts, and moves to generating.
    pub fn make_prompt(&mut self) -> (r: String)
        requires
            old(self).wf(),
            old(self).stage is Prompting,
        ensures
            final(self).wf(),
            final(self).stage is Generating,
            final(self).request == old(self).request,
            final(self).oam_yaml == old(self).oam_yaml,
            final(self).files is None && final(self).archive is None && final(self).outcome
                is None,
            (match old(self).oam_yaml {
                Some(y) => r@ == spec_prompt(
                    y@,
                    old(self).request.provider@,
                    old(self).request.tool@,
                ),
                None => false,
            }),
            log_view(final(self).log@) =~= log_view(old(self).log@).push(
                (Seq::<char>::empty(), 0int, "Generating files from LLM..."@),
            ),
    {
        let y = self.oam_yaml.as_ref().unwrap();
        let prompt = build_prompt(y.as_str(), self.request.provider.as_str(), self.request.tool.as_str());
        self.stage = Stage::Generating;
        let ghost pre = self.log@;
        self.log.push(
            LogRecord {
                out_dir: String::new(),
                code: 0,
                message: String::from_str("Generating files from LLM..."),
            },
        );
        proof {
            assert(log_view(self.log@) =~= log_view(pre).push(
                (Seq::<char>::empty(), 0int, "Generating files from LLM..."@),
            ));
        }
        prompt
    }

    /// The generation service answered. A success parses into the file set
    /// and moves to materializing; any failure — non-success status,
    /// undecodable envelope, or a payload that is not the file-set schema —
    /// logs its code-1 entry, decides the failure outcome and moves to
    /// cleaning up with no files recorded and no archive produced.
    pub fn on_generation_response(&mut self, status_success: bool, body: &str)
        requires
            old(self).wf(),
            old(self).stage is Generating,
        ensures
            final(self).wf(),
            final(self).request == old(self).request,
            final(self).archive is None,
            (match spec_generation_result(status_success, body@) {
                Ok(m) => {
                    &&& final(self).stage is Materializing
                    &&& final(self).files matches Some(g) && g.pairs() == m
                    &&& final(self).outcome is None
                    &&& log_view(final(self).log@) =~= log_view(old(self).log@).push(
                        (Seq::<char>::empty(), 0int, "Successfully generated files from LLM."@),
                    )
                },
                Err(t) => {
                    &&& final(self).stage is CleaningUp
                    &&& final(self).files is None
                    &&& final(self).outcome matches Some(o) && o matches Err(m) && m@
                        == "Failed to generate files from LLM: "@ + t
                    &&& log_view(final(self).log@) =~= log_view(old(self).log@).push(
                        (Seq::<char>::empty(), 1int, "Failed to generate files from LLM: "@ + t),
                    )
                },
            }),
            !status_success ==> (final(self).stage is CleaningUp && final(self).files is None
                && final(self).archive is None),
    {
        match process_generation_response(status_success, body) {
            Ok(g) => {
                self.files = Some(g);
                self.stage = Stage::Materializing;
                let ghost pre = self.log@;
                self.log.push(
                    LogRecord {
                        out_dir: String::new(),
                        code: 0,
                        message: String::from_str("Successfully generated files from LLM."),
                    },
                );
                proof {
                    assert(log_view(self.log@) =~= log_view(pre).push(
                        (Seq::<char>::empty(), 0int, "Successfully generated files from LLM."@),
                    ));
                }
            },
            Err(e) => {
                let msg = concat2("Failed to generate files from LLM: ", e.as_str());
                let ghost mv = msg@;
                let ghost pre = self.log@;
                self.log.push(LogRecord { out_dir: String::new(), code: 1, message: msg.clone() });
                self.outcome = Some(Err(msg));
                self.stage = Stage::CleaningUp;
                proof {
                    assert(log_view(self.log@) =~= log_view(pre).push(
                        (Seq::<char>::empty(), 1int, mv),
                    ));
                }
            },
        }
    }

    /// The generated files were written to the scratch workspace: log that
    /// archiving starts and move to archiving.
    pub fn on_materialize_ok(&mut self)
        requires
            old(self).wf(),
            old(self).stage is Materializing,
        ensures
            final(self).wf(),
            final(self).stage is Archiving,
            final(self).request == old(self).request,
            final(self).files == old(self).files,
            final(self).archive is None && final(self).outcome is None,
            log_view(final(self).log@) =~= log_view(old(self).log@).push(
                (Seq::<char>::empty(), 0int, "Zipping directory..."@),
            ),
    {
        self.stage = Stage::Archiving;
        let ghost pre = self.log@;
        self.log.push(
            LogRecord {
                out_dir: String::new(),
                code: 0,
                message: String::from_str("Zipping directory..."),
            },
        );
        proof {
            assert(log_view(self.log@) =~= log_view(pre).push(
                (Seq::<char>::empty(), 0int, "Zipping directory..."@),
            ));
        }
    }

    /// A generated file could not be written to the workspace: log the
    /// code-1 entry, decide the failure outcome, move to cleaning up.
    pub fn on_materialize_err(&mut self, detail: &str)
        requires
            old(self).wf(),
            old(self).stage is Materializing,
        ensures
            final(self).wf(),
            final(self).stage is CleaningUp,
            final(self).request == old(self).request,
            final(self).archive is None,
            final(self).outcome matches Some(o) && o matches Err(m) && m@
                == "Failed to write generated files to workspace: "@ + detail@,
            log_view(final(self).log@) =~= log_view(old(self).log@).push(
                (Seq::<char>::empty(), 1int, "Failed to write generated files to workspace: "@ + detail@),
            ),
    {
        let msg = concat2("Failed to write generated files to workspace: ", detail);
        let ghost mv = msg@;
        let ghost pre = self.log@;
        self.log.push(LogRecord { out_dir: String::new(), code: 1, message: msg.clone() });
        self.outcome = Some(Err(msg));
        self.stage = Stage::CleaningUp;
        proof {
            assert(log_view(self.log@) =~= log_view(pre).push((Seq::<char>::empty(), 1int, mv)));
        }
    }

    /// The workspace could not be walked or the archive not written out: log
    /// the code-1 entry with the archiving stage's message, decide the
    /// failure outcome, move to cleaning up.
    pub fn on_archive_err(&mut self, detail: &str)
        requires
            old(self).wf(),
            old(self).stage is Archiving,
        ensures
            final(self).wf(),
            final(self).stage is CleaningUp,
            final(self).request == old(self).request,
            final(self).outcome matches Some(o) && o matches Err(m) && m@
                == "Failed to zip directory: "@ + detail@,
            log_view(final(self).log@) =~= log_view(old(self).log@).push(
                (Seq::<char>::empty(), 1int, "Failed to zip directory: "@ + detail@),
            ),
    {
        let msg = concat2("Failed to zip directory: ", detail);
        let ghost mv = msg@;
        let ghost pre = self.log@;
        self.log.push(LogRecord { out_dir: String::new(), code: 1, message: msg.clone() });
        self.outcome = Some(Err(msg));
        self.stage = Stage::CleaningUp;
        proof {
            assert(log_view(self.log@) =~= log_view(pre).push((Seq::<char>::empty(), 1int, mv)));
        }
    }

    /// Packs the walked workspace into the archive. With every file under
    /// the archive's per-entry size limit — generated workspaces hold text
    /// files, far under it — the archive bytes are recorded (the writer's
    /// deterministic encoding of exactly the walk's entries), both archive
    /// log entries are appended, and the pipeline moves to uploading. A walk
    /// holding an oversized file logs the code-1 entry, decides the failure
    /// outcome, and moves to cleaning up.
    pub fn on_workspace_walked(&mut self, walk: &Vec<WalkEntry>)
        requires
            old(self).wf(),
            old(self).stage is Archiving,
        ensures
            final(self).wf(),
            final(self).request == old(self).request,
            final(self).files == old(self).files,
            all_entries_fit(entries_view(walk@)) ==> {
                &&& final(self).stage is Uploading
                &&& final(self).archive matches Some(b) && b@ == zip_encoding_of(
                    archive_entries(entries_view(walk@)),
                )
                &&& final(self).outcome is None
                &&& log_view(final(self).log@) =~= log_view(old(self).log@).push(
                    (Seq::<char>::empty(), 0int, "Successfully zipped directory."@),
                ).push((Seq::<char>::empty(), 0int, "Uploading to storage..."@))
            },
            !all_entries_fit(entries_view(walk@)) ==> {
                &&& final(self).stage is CleaningUp
                &&& final(self).outcome matches Some(o) && o matches Err(m) && m@
                    == "Failed to zip directory: a generated file exceeds the archive's entry size limit"@
                &&& log_view(final(self).log@) =~= log_view(old(self).log@).push(
                    (
                        Seq::<char>::empty(),
                        1int,
                        "Failed to zip directory: a generated file exceeds the archive's entry size limit"@,
                    ),
                )
            },
    {
        let n = walk.len();
        let mut i: usize = 0;
        while i < n
            invariant
                n == walk@.len(),
                i <= n,
                *self == *old(self),
                self.wf(),
                self.stage is Archiving,
                forall|k: int| 0 <= k < i ==> entry_fits(entries_view(walk@)[k]),
            decreases n - i,
        {
            proof {
                assert(entries_view(walk@)[i as int] == walk@[i as int].view_pair());
            }
            let oversized = match &walk[i].content {
                Some(b) => b.len() >= 0xFFF0_0000,
                None => false,
            };
            if oversized {
                proof {
                    assert(!entry_fits(entries_view(walk@)[i as int]));
                }
                let msg = String::from_str(
                    "Failed to zip directory: a generated file exceeds the archive's entry size limit",
                );
                let ghost mv = msg@;
                let ghost pre = self.log@;
                self.log.push(LogRecord { out_dir: String::new(), code: 1, message: msg.clone() });
                self.outcome = Some(Err(msg));
                self.stage = Stage::CleaningUp;
                proof {
                    assert(log_view(self.log@) =~= log_view(pre).push(
                        (Seq::<char>::empty(), 1int, mv),
                    ));
                }
                return ;
            }
            i = i + 1;
        }
        proof {
            assert(all_entries_fit(entries_view(walk@)));
        }
        let bytes = build_archive(walk);
        self.archive = Some(bytes);
        self.stage = Stage::Uploading;
        let ghost pre = self.log@;
        self.log.push(
            LogRecord {
                out_dir: String::new(),
                code: 0,
                message: String::from_str("Successfully zipped directory."),
            },
        );
        self.log.push(
            LogRecord {
                out_dir: String::new(),
                code: 0,
                message: String::from_str("Uploading to storage..."),
            },
        );
        proof {
            assert(log_view(self.log@) =~= log_view(pre).push(
                (Seq::<char>::empty(), 0int, "Successfully zipped directory."@),
            ).push((Seq::<char>::empty(), 0int, "Uploading to storage..."@)));
        }
    }

    /// Asks the backend for the remote path the archive will be addressable
    /// under, for the object key formed from the external id and the upload
    /// timestamp. An unimplemented or failing backend decides the upload
    /// failure here, before any transfer; otherwise the caller performs the
    /// transfer and reports back.
    pub fn begin_upload<B: Storage>(&mut self, backend: &B, timestamp: &str) -> (r: Option<String>)
        requires
            old(self).wf(),
            old(self).stage is Uploading,
        ensures
            final(self).wf(),
            final(self).request == old(self).request,
            final(self).files == old(self).files,
            final(self).archive == old(self).archive,
            (match backend.spec_destination(
                spec_object_key(old(self).request.external_id@, timestamp@),
            ) {
                Ok(p) => {
                    &&& r matches Some(path) && path@ == p
                    &&& final(self).stage is Uploading
                    &&& final(self).outcome is None
                    &&& log_view(final(self).log@) =~= log_view(old(self).log@)
                },
                Err(f) => {
                    &&& r is None
                    &&& final(self).stage is CleaningUp
                    &&& final(self).outcome matches Some(o) && o matches Err(m) && m@
                        == "Failed to upload to storage: "@ + f
                    &&& log_view(final(self).log@) =~= log_view(old(self).log@).push(
                        (Seq::<char>::empty(), 1int, "Failed to upload to storage: "@ + f),
                    )
                },
            }),
    {
        let mut key = String::new();
        key.append(self.request.external_id.as_str());
        key.append("/");
        key.append(timestamp);
        key.append(".zip");
        proof {
            assert(key@ =~= spec_object_key(self.request.external_id@, timestamp@));
        }
        match backend.destination(key.as_str()) {
            Ok(path) => Some(path),
            Err(f) => {
                let msg = concat2("Failed to upload to storage: ", f.as_str());
                let ghost mv = msg@;
                let ghost pre = self.log@;
                self.log.push(LogRecord { out_dir: String::new(), code: 1, message: msg.clone() });
                self.outcome = Some(Err(msg));
                self.stage = Stage::CleaningUp;
                proof {
                    assert(log_view(self.log@) =~= log_view(pre).push(
                        (Seq::<char>::empty(), 1int, mv),
                    ));
                }
                None
            },
        }
    }

    /// The archive was transferred and is addressable under `path`: log the
    /// success entry with the path as output location, record the storage
    /// path, decide the success outcome, and move to persisting.
    pub fn on_upload_ok(&mut self, path: &str)
        requires
            old(self).wf(),
            old(self).stage is Uploading,
        ensures
            final(self).wf(),
            final(self).stage is Persisting,
            final(self).request == old(self).request,
            final(self).files == old(self).files,
            final(self).storage_path matches Some(p) && p@ == path@,
            final(self).outcome matches Some(o) && o matches Ok(m) && m@ == spec_success_message(
                path@,
            ),
            log_view(final(self).log@) =~= log_view(old(self).log@).push(
                (path@, 0int, "Successfully uploaded to "@ + path@),
            ),
    {
        let msg = concat2("Successfully uploaded to ", path);
        let ghost pre = self.log@;
        self.log.push(LogRecord { out_dir: String::from_str(path), code: 0, message: msg });
        self.storage_path = Some(String::from_str(path));
        self.outcome = Some(Ok(concat2("Successfully generated and uploaded IaC to ", path)));
        self.stage = Stage::Persisting;
        proof {
            assert(log_view(self.log@) =~= log_view(pre).push(
                (path@, 0int, "Successfully uploaded to "@ + path@),
            ));
        }
    }

    /// The transfer failed: log the code-1 entry, decide the failure
    /// outcome, move to cleaning up.
    pub fn on_upload_err(&mut self, detail: &str)
        requires
            old(self).wf(),
            old(self).stage is Uploading,
        ensures
            final(self).wf(),
            final(self).stage is CleaningUp,
            final(self).request == old(self).request,
            final(self).outcome matches Some(o) && o matches Err(m) && m@
                == "Failed to upload to storage: "@ + detail@,
            log_view(final(self).log@) =~= log_view(old(self).log@).push(
                (Seq::<char>::empty(), 1int, "Failed to upload to storage: "@ + detail@),
            ),
    {
        let msg = concat2("Failed to upload to storage: ", detail);
        let ghost mv = msg@;
        let ghost pre = self.log@;
        self.log.push(LogRecord { out_dir: String::new(), code: 1, message: msg.clone() });
        self.outcome = Some(Err(msg));
        self.stage = Stage::CleaningUp;
        proof {
            assert(log_view(self.log@) =~= log_view(pre).push((Seq::<char>::empty(), 1int, mv)));
        }
    }

    /// The terminal record was persisted, or persisting failed: either way
    /// the decided outcome stands unchanged — persistence is advisory — and
    /// the pipeline moves to cleaning up.
    pub fn on_persist_result(&mut self, persisted: bool)
        requires
            old(self).wf(),
            old(self).stage is Persisting,
        ensures
            final(self).wf(),
            final(self).stage is CleaningUp,
            final(self).request == old(self).request,
            final(self).files == old(self).files,
            final(self).storage_path == old(self).storage_path,
            final(self).outcome == old(self).outcome,
            log_view(final(self).log@) =~= log_view(old(self).log@),
    {
        let _ = persisted;
        self.stage = Stage::CleaningUp;
    }

    /// The scratch workspace and the intermediate archive were removed
    /// (removal errors are swallowed and never override the outcome): the
    /// pipeline reaches its terminal, `Done` on a success outcome and
    /// `Failed` on a failure.
    pub fn on_cleanup_done(&mut self)
        requires
            old(self).wf(),
            old(self).stage is CleaningUp,
        ensures
            final(self).wf(),
            final(self).request == old(self).request,
            final(self).files == old(self).files,
            final(self).storage_path == old(self).storage_path,
            final(self).outcome == old(self).outcome,
            log_view(final(self).log@) =~= log_view(old(self).log@),
            (match old(self).outcome {
                Some(o) => ((o is Ok ==> final(self).stage is Done) && (o is Err
                    ==> final(self).stage is Failed)),
                None => false,
            }),
    {
        let done = match &self.outcome {
            Some(o) => o.is_ok(),
            None => false,
        };
        if done {
            self.stage = Stage::Done;
        } else {
            self.stage = Stage::Failed;
        }
    }

    /// The HTTP response for a terminal pipeline: on success, status 200 and
    /// a JSON body holding the deploy script (the generated `deploy.sh`
    /// content, or empty where none was generated) and the success message;
    /// on failure, status 500 and the failing stage's error text verbatim.
    pub fn response(&self) -> (r: (u16, String))
        requires
            self.wf(),
            self.stage is Done || self.stage is Failed,
        ensures
            self.stage is Done ==> (r.0 == 200 && (match (self.outcome, self.files) {
                (Some(o), Some(g)) => o matches Ok(m) && r.1@ == spec_success_body(
                    m@,
                    spec_deploy_script(g),
                ),
                _ => false,
            })),
            self.stage is Failed ==> (r.0 == 500 && (match self.outcome {
                Some(o) => o matches Err(e) && r.1@ == e@,
                None => false,
            })),
    {
        let failed = match self.stage {
            Stage::Failed => true,
            _ => false,
        };
        if failed {
            let e = match self.outcome.as_ref().unwrap() {
                Ok(_) => {
                    proof {
                        assert(false);
                    }
                    String::new()
                },
                Err(e) => e.clone(),
            };
            return (500, e);
        }
        let m = match self.outcome.as_ref().unwrap() {
            Ok(m) => m.clone(),
            Err(_) => {
                proof {
                    assert(false);
                }
                String::new()
            },
        };
        let g = self.files.as_ref().unwrap();
        let ghost pairs = g.pairs();
        let ds: &str = match g.get_file("deploy.sh") {
            Some(s) => {
                proof {
                    let i = choose|i: int|
                        0 <= i < pairs.len() && pairs[i] == ("deploy.sh"@, s@);
                    crate::llm::lemma_lookup_found(pairs, "deploy.sh"@, i);
                }
                s.as_str()
            },
            None => {
                proof {
                    crate::llm::lemma_lookup_absent(pairs, "deploy.sh"@);
                    reveal_strlit("");
                    assert(""@ =~= Seq::<char>::empty());
                }
                ""
            },
        };
        let mut body = String::new();
        body.append("{\"deploy_script\":");
        crate::jsonfmt::append_json_quoted(&mut body, ds);
        body.append(",\"message\":");
        crate::jsonfmt::append_json_quoted(&mut body, m.as_str());
        body.append("}");
        proof {
            assert(body@ =~= spec_success_body(m@, ds@));
        }
        (200, body)
    }
}

} // verus!

