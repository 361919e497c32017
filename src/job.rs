use vstd::prelude::*;

use crate::filename::{is_plain_name, lemma_sanitized_name_is_plain, sanitize_filename, sanitized_name};
use crate::status::Status;
use crate::text::{decimal_of, decimal_text, digit_char};

verus! {

/// A server-side unit of work, routed to a compute client.
#[derive(Debug)]
pub struct Job {
    pub id: i32,
    pub user_id: i32,
    pub service: String,
    pub status: Status,
    /// The directory holding the job's files.
    pub loc: String,
    /// The payload id that the remote client returned for this job.
    pub dest_id: u32,
}

/// The contents of a `Job`.
pub struct JobModel {
    pub id: i32,
    pub user_id: i32,
    pub service: Seq<char>,
    pub status: Status,
    pub loc: Seq<char>,
    pub dest_id: u32,
}

impl View for Job {
    type V = JobModel;

    open spec fn view(&self) -> JobModel {
        JobModel {
            id: self.id,
            user_id: self.user_id,
            service: self.service@,
            status: self.status,
            loc: self.loc@,
            dest_id: self.dest_id,
        }
    }
}

impl Job {
    /// A new, not yet stored job whose files live in `loc`.
    pub fn new(loc: &str) -> (r: Job)
        ensures
            r@ == (JobModel {
                id: 0,
                user_id: 0,
                service: Seq::empty(),
                status: Status::Pending,
                loc: loc@,
                dest_id: 0,
            }),
    {
        Job {
            id: 0,
            user_id: 0,
            service: String::new(),
            status: Status::Pending,
            loc: String::from_str(loc),
            dest_id: 0,
        }
    }

    pub fn set_id(&mut self, id: i32)
        ensures
            final(self)@ == (JobModel { id, ..old(self)@ }),
    {
        self.id = id;
    }

    pub fn set_user_id(&mut self, user_id: i32)
        ensures
            final(self)@ == (JobModel { user_id, ..old(self)@ }),
    {
        self.user_id = user_id;
    }

    pub fn set_service(&mut self, service: String)
        ensures
            final(self)@ == (JobModel { service: service@, ..old(self)@ }),
    {
        self.service = service;
    }

    pub fn set_status(&mut self, status: Status)
        ensures
            final(self)@ == (JobModel { status, ..old(self)@ }),
    {
        self.status = status;
    }

    pub fn set_dest_id(&mut self, dest_id: u32)
        ensures
            final(self)@ == (JobModel { dest_id, ..old(self)@ }),
    {
        self.dest_id = dest_id;
    }

    /// A copy of the job.
    pub fn duplicate(&self) -> (r: Job)
        ensures
            r@ == self@,
    {
        Job {
            id: self.id,
            user_id: self.user_id,
            service: self.service.clone(),
            status: self.status,
            loc: self.loc.clone(),
            dest_id: self.dest_id,
        }
    }
}

/// A client-side unit of work: files received from a server, run by `run.sh`.
#[derive(Debug)]
pub struct Payload {
    pub id: u32,
    pub status: Status,
    /// The payload directory; empty until the payload is prepared.
    pub loc: String,
    /// Received files, by sanitized name, waiting to be written to disk.
    pub inputs: Vec<(String, Vec<u8>)>,
}

/// The contents of a `Payload`.
pub struct PayloadModel {
    pub id: u32,
    pub status: Status,
    pub loc: Seq<char>,
    pub inputs: Seq<(Seq<char>, Seq<u8>)>,
}

/// The contents of a list of named files.
pub open spec fn files_view(v: Seq<(String, Vec<u8>)>) -> Seq<(Seq<char>, Seq<u8>)> {
    v.map_values(|f: (String, Vec<u8>)| (f.0@, f.1@))
}

impl View for Payload {
    type V = PayloadModel;

    open spec fn view(&self) -> PayloadModel {
        PayloadModel {
            id: self.id,
            status: self.status,
            loc: self.loc@,
            inputs: files_view(self.inputs@),
        }
    }
}

/// `base` joined with one more path component.
pub open spec fn join_path(base: Seq<char>, name: Seq<char>) -> Seq<char> {
    if base.len() == 0 || base.last() == '/' {
        base + name
    } else {
        base + seq!['/'] + name
    }
}

/// The files to write for queued inputs: each at its name inside `dir`.
pub open spec fn prepared_files(inputs: Seq<(Seq<char>, Seq<u8>)>, dir: Seq<char>) -> Seq<
    (Seq<char>, Seq<u8>),
> {
    inputs.map_values(|f: (Seq<char>, Seq<u8>)| (join_path(dir, f.0), f.1))
}

/// Uploaded files as they are queued: each under its sanitized name.
pub open spec fn received(files: Seq<(Seq<char>, Seq<u8>)>) -> Seq<(Seq<char>, Seq<u8>)> {
    files.map_values(|f: (Seq<char>, Seq<u8>)| (sanitized_name(f.0), f.1))
}

/// The directory of payload `id` under `data_path`.
pub open spec fn payload_dir(data_path: Seq<char>, id: u32) -> Seq<char> {
    join_path(data_path, decimal_of(id as nat))
}

/// Joins one more component onto a path.
pub fn join(base: &str, name: &str) -> (r: String)
    ensures
        r@ == join_path(base@, name@),
{
    let n = base.unicode_len();
    if n == 0 || base.get_char(n - 1) == '/' {
        String::from_str(base).concat(name)
    } else {
        proof {
            reveal_strlit("/");
        }
        let r = String::from_str(base).concat("/").concat(name);
        assert(r@ =~= base@ + seq!['/'] + name@);
        r
    }
}

impl Payload {
    /// A new payload: no id yet, `Pending`, no directory, no files.
    pub fn new() -> (r: Payload)
        ensures
            r@ == (PayloadModel {
                id: 0,
                status: Status::Pending,
                loc: Seq::empty(),
                inputs: Seq::empty(),
            }),
    {
        let r = Payload { id: 0, status: Status::Pending, loc: String::new(), inputs: Vec::new() };
        assert(files_view(r.inputs@) =~= Seq::<(Seq<char>, Seq<u8>)>::empty());
        r
    }

    pub fn set_id(&mut self, id: u32)
        ensures
            final(self)@ == (PayloadModel { id, ..old(self)@ }),
    {
        self.id = id;
    }

    pub fn set_status(&mut self, status: Status)
        ensures
            final(self)@ == (PayloadModel { status, ..old(self)@ }),
    {
        self.status = status;
    }

    pub fn set_loc(&mut self, loc: String)
        ensures
            final(self)@ == (PayloadModel { loc: loc@, ..old(self)@ }),
    {
        self.loc = loc;
    }

    /// Queues a file under the given name.
    pub fn add_input(&mut self, name: String, data: Vec<u8>)
        ensures
            final(self)@ == (PayloadModel {
                inputs: old(self)@.inputs.push((name@, data@)),
                ..old(self)@
            }),
    {
        let ghost before = self.inputs@;
        self.inputs.push((name, data));
        assert(files_view(self.inputs@) =~= files_view(before).push((name@, data@)));
    }

    /// Queues an uploaded file under its sanitized name.
    pub fn receive_file(&mut self, filename: &str, data: Vec<u8>)
        ensures
            final(self)@ == (PayloadModel {
                inputs: old(self)@.inputs.push((sanitized_name(filename@), data@)),
                ..old(self)@
            }),
    {
        let name = sanitize_filename(filename);
        self.add_input(name, data);
    }

    /// Places the payload in its directory under `data_path` and hands back
    /// the files to write there: each queued file at its name inside the
    /// directory, in the order received. The queue is left empty.
    pub fn prepare(&mut self, data_path: &str) -> (r: Vec<(String, Vec<u8>)>)
        ensures
            final(self)@ == (PayloadModel {
                loc: payload_dir(data_path@, old(self).id),
                inputs: Seq::empty(),
                ..old(self)@
            }),
            files_view(r@) == prepared_files(old(self)@.inputs, payload_dir(data_path@, old(self).id)),
    {
        let dir = join(data_path, decimal_text(self.id as u64).as_str());
        let ghost inputs = files_view(self.inputs@);
        let mut queued: Vec<(String, Vec<u8>)> = Vec::new();
        std::mem::swap(&mut queued, &mut self.inputs);
        assert(files_view(self.inputs@) =~= Seq::<(Seq<char>, Seq<u8>)>::empty());
        let mut out: Vec<(String, Vec<u8>)> = Vec::new();
        let ghost n = inputs.len();
        while queued.len() > 0
            invariant
                n == inputs.len(),
                files_view(queued@) == inputs.subrange(n - queued@.len(), n as int),
                queued@.len() <= n,
                files_view(out@).len() == n - queued@.len(),
                forall|i: int|
                    0 <= i < n - queued@.len() ==> #[trigger] files_view(out@)[i] == (
                    join_path(dir@, inputs[i].0),
                    inputs[i].1,
                ),
            decreases queued@.len(),
        {
            let ghost k = n - queued@.len();
            let ghost before = files_view(queued@);
            let (name, data) = queued.remove(0);
            assert(before[0] == (name@, data@));
            assert(files_view(queued@) =~= before.drop_first());
            let ghost prev = files_view(out@);
            out.push((join(dir.as_str(), name.as_str()), data));
            assert(files_view(out@) =~= prev.push((join_path(dir@, name@), data@)));
            assert(inputs[k] == before[0]);
        }
        self.loc = dir;
        assert(files_view(out@) =~= prepared_files(inputs, dir@));
        out
    }

    /// Queues uploaded files, in order, each under its sanitized name.
    pub fn receive_files(&mut self, files: Vec<(String, Vec<u8>)>)
        ensures
            final(self)@ == (PayloadModel {
                inputs: old(self)@.inputs + received(files_view(files@)),
                ..old(self)@
            }),
    {
        let ghost start = self@;
        let ghost fv = files_view(files@);
        let total = files.len();
        let mut rest = files;
        let mut i: usize = 0;
        while rest.len() > 0
            invariant
                files_view(rest@) == fv.subrange(i as int, fv.len() as int),
                rest@.len() + i == fv.len(),
                fv.len() == total,
                self@ == (PayloadModel {
                    inputs: start.inputs + received(fv.take(i as int)),
                    ..start
                }),
            decreases rest@.len(),
        {
            let ghost before = files_view(rest@);
            let (name, data) = rest.remove(0);
            assert(before[0] == (name@, data@));
            assert(files_view(rest@) =~= before.drop_first());
            self.receive_file(name.as_str(), data);
            assert(received(fv.take(i as int + 1)) =~= received(fv.take(i as int)).push(
                (sanitized_name(name@), data@),
            ));
            assert(start.inputs + received(fv.take(i as int + 1)) =~= (start.inputs + received(
                fv.take(i as int),
            )).push((sanitized_name(name@), data@)));
            i += 1;
        }
        assert(fv.take(i as int) =~= fv);
    }

    /// Whether the payload has been written to disk and may be run.
    pub open spec fn is_prepared(self) -> bool {
        self.status == Status::Prepared
    }
}

} // verus!

verus! {

proof fn lemma_decimal_ends_in_digit(n: nat)
    ensures
        decimal_of(n).len() > 0,
        decimal_of(n).last() == digit_char(n % 10),
{
}

/// Once a payload has received files and been prepared under `data_path`,
/// each file is written, with the bytes that were sent, directly inside the
/// payload's directory `<data_path>/<id>`, under its sanitized name.
pub proof fn lemma_prepared_layout(
    files: Seq<(Seq<char>, Seq<u8>)>,
    data_path: Seq<char>,
    id: u32,
    i: int,
)
    requires
        0 <= i < files.len(),
    ensures
        prepared_files(received(files), payload_dir(data_path, id))[i] == (payload_dir(data_path, id)
            + seq!['/'] + sanitized_name(files[i].0), files[i].1),
        is_plain_name(sanitized_name(files[i].0)),
{
    lemma_decimal_ends_in_digit(id as nat);
    lemma_sanitized_name_is_plain(files[i].0);
    let dir = payload_dir(data_path, id);
    let d = decimal_of(id as nat);
    assert(dir.last() == d.last());
    assert(d.last() != '/');
}

} // verus!
