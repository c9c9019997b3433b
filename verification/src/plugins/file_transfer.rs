//! The file transfer session manager: which files are being received, and
//! what is to be done to the files for each message of a transfer.
//!
//! A session begins when the announced file was created, and ends with the
//! end of the transfer or with an error. Chunks may come in any order: each
//! is written at its own offset. The announced size is advisory: it is held
//! against nothing, neither while chunks come nor at the end. A chunk for a
//! file without a session is dropped without a word to the sender.

use vstd::prelude::*;
use vstd::string::StringExecFns;
use crate::device::DeviceId;
use crate::dispatch::{outcome_of, Outcome, PluginError};
use crate::file_image::{
    in_sequence, joined, lemma_sequence_tiles, lemma_transfer_round_trip, rearranges, received,
    write_at, Chunk,
};
use crate::message::{Message, MessageView};
use crate::text::str_eq;

verus! {

/// What is to be done to the files under the download directory.
#[derive(Debug, Clone, PartialEq)]
pub enum FileRequest {
    /// Nothing.
    Ignore,
    /// Create the file, empty, in place of whatever has that name, and keep
    /// it open.
    Create { file_name: String },
    /// Write the data into the open file at the offset, and flush.
    Write { file_name: String, offset: u64, data: Vec<u8> },
    /// Close the file.
    Close { file_name: String },
    /// Close the file, if it is open, and delete it.
    Remove { file_name: String },
}

/// A request to the files, as plain values.
pub enum FileRequestView {
    Ignore,
    Create { file_name: Seq<char> },
    Write { file_name: Seq<char>, offset: u64, data: Seq<u8> },
    Close { file_name: Seq<char> },
    Remove { file_name: Seq<char> },
}

impl View for FileRequest {
    type V = FileRequestView;

    open spec fn view(&self) -> FileRequestView {
        match *self {
            FileRequest::Ignore => FileRequestView::Ignore,
            FileRequest::Create { file_name } => FileRequestView::Create { file_name: file_name@ },
            FileRequest::Write { file_name, offset, data } => FileRequestView::Write {
                file_name: file_name@,
                offset,
                data: data@,
            },
            FileRequest::Close { file_name } => FileRequestView::Close { file_name: file_name@ },
            FileRequest::Remove { file_name } => FileRequestView::Remove { file_name: file_name@ },
        }
    }
}

/// What is to be done to the files for a message, given the names of the
/// files with a session.
pub open spec fn file_request(sessions: Set<Seq<char>>, message: MessageView) -> FileRequestView {
    match message {
        MessageView::FileTransferRequest { file_name, file_size } => FileRequestView::Create {
            file_name,
        },
        MessageView::FileTransferChunk { file_name, chunk, offset } => if sessions.contains(
            file_name,
        ) {
            FileRequestView::Write { file_name, offset, data: chunk }
        } else {
            FileRequestView::Ignore
        },
        MessageView::FileTransferEnd { file_name } => if sessions.contains(file_name) {
            FileRequestView::Close { file_name }
        } else {
            FileRequestView::Ignore
        },
        MessageView::FileTransferError { file_name, error } => FileRequestView::Remove {
            file_name,
        },
        _ => FileRequestView::Ignore,
    }
}

/// The names of the files with a session after a message: the end of a
/// transfer and an error end the file's session; nothing else changes the
/// sessions.
pub open spec fn sessions_after(sessions: Set<Seq<char>>, message: MessageView) -> Set<Seq<char>> {
    match message {
        MessageView::FileTransferEnd { file_name } => sessions.remove(file_name),
        MessageView::FileTransferError { file_name, error } => sessions.remove(file_name),
        _ => sessions,
    }
}

/// The receiving side as a whole: the names of the files with a session, and
/// the files under the download directory with their content.
pub struct Receiver {
    pub sessions: Set<Seq<char>>,
    pub files: Map<Seq<char>, Seq<u8>>,
}

/// The files after a request was carried out.
pub open spec fn files_after(files: Map<Seq<char>, Seq<u8>>, request: FileRequestView) -> Map<
    Seq<char>,
    Seq<u8>,
> {
    match request {
        FileRequestView::Ignore => files,
        FileRequestView::Create { file_name } => files.insert(file_name, Seq::empty()),
        FileRequestView::Write { file_name, offset, data } => if files.contains_key(file_name) {
            files.insert(file_name, write_at(files[file_name], offset as nat, data))
        } else {
            files
        },
        FileRequestView::Close { file_name } => files,
        FileRequestView::Remove { file_name } => files.remove(file_name),
    }
}

impl Receiver {
    /// The receiving side after a message, where every request to the files
    /// is carried out and goes well: an announced file is created and its
    /// session begins; everything else is as the handler says.
    pub open spec fn after(self, message: MessageView) -> Receiver {
        Receiver {
            sessions: match message {
                MessageView::FileTransferRequest { file_name, file_size } => self.sessions.insert(
                    file_name,
                ),
                _ => sessions_after(self.sessions, message),
            },
            files: files_after(self.files, file_request(self.sessions, message)),
        }
    }

    /// The receiving side after a list of messages, one after the other.
    pub open spec fn after_all(self, messages: Seq<MessageView>) -> Receiver
        decreases messages.len(),
    {
        if messages.len() == 0 {
            self
        } else {
            self.after_all(messages.drop_last()).after(messages.last())
        }
    }
}

/// The messages that carry the chunks of a file, in the order of the chunks.
pub open spec fn chunk_messages(file_name: Seq<char>, chunks: Seq<Chunk>) -> Seq<MessageView> {
    Seq::new(
        chunks.len(),
        |i: int|
            MessageView::FileTransferChunk {
                file_name,
                chunk: chunks[i].data,
                offset: chunks[i].offset as u64,
            },
    )
}

/// While a file has a session, its content is what the chunks sent so far
/// make of it.
pub proof fn lemma_chunks_received(start: Receiver, file_name: Seq<char>, chunks: Seq<Chunk>)
    requires
        start.sessions.contains(file_name),
        start.files.contains_key(file_name),
        start.files[file_name] == Seq::<u8>::empty(),
        forall|i: int| 0 <= i < chunks.len() ==> (#[trigger] chunks[i]).offset <= u64::MAX,
    ensures
        start.after_all(chunk_messages(file_name, chunks)).sessions == start.sessions,
        start.after_all(chunk_messages(file_name, chunks)).files == start.files.insert(
            file_name,
            received(chunks),
        ),
    decreases chunks.len(),
{
    let messages = chunk_messages(file_name, chunks);
    if chunks.len() == 0 {
        assert(start.files.insert(file_name, received(chunks)) =~= start.files);
    } else {
        let earlier = chunks.drop_last();
        assert(messages.drop_last() =~= chunk_messages(file_name, earlier));
        assert forall|i: int| 0 <= i < earlier.len() implies (#[trigger] earlier[i]).offset
            <= u64::MAX by {
            assert(earlier[i] == chunks[i]);
        }
        lemma_chunks_received(start, file_name, earlier);
        let before = start.after_all(chunk_messages(file_name, earlier));
        let last = chunks.last();
        assert(last == chunks[chunks.len() - 1]);
        assert(messages.last() == MessageView::FileTransferChunk {
            file_name,
            chunk: last.data,
            offset: last.offset as u64,
        });
        assert(before.after(messages.last()).files =~= start.files.insert(
            file_name,
            received(chunks),
        ));
    }
}

/// A transfer gives the file back: where a file is announced, its chunks
/// come in any order, each once, and the transfer ends, the file under the
/// download directory holds exactly the bytes of the chunks joined in the
/// order of their offsets, and its session is over. The chunks are those of
/// a list that covers the file from its start without gap or overlap.
pub proof fn lemma_file_transfer_round_trip(
    start: Receiver,
    file_name: Seq<char>,
    file_size: u64,
    chunks: Seq<Chunk>,
    sorted: Seq<Chunk>,
    order: Seq<int>,
    place: Seq<int>,
)
    requires
        chunks.len() >= 1,
        in_sequence(sorted),
        rearranges(chunks, sorted, order, place),
        joined(sorted).len() <= u64::MAX,
    ensures
        ({
            let announced = start.after(MessageView::FileTransferRequest { file_name, file_size });
            let filled = announced.after_all(chunk_messages(file_name, chunks));
            let ended = filled.after(MessageView::FileTransferEnd { file_name });
            &&& ended.files.contains_key(file_name)
            &&& ended.files[file_name] == joined(sorted)
            &&& !ended.sessions.contains(file_name)
        }),
{
    let announced = start.after(MessageView::FileTransferRequest { file_name, file_size });
    lemma_sequence_tiles(sorted);
    assert forall|i: int| 0 <= i < chunks.len() implies (#[trigger] chunks[i]).offset
        <= u64::MAX by {
        assert(chunks[i] == sorted[order[i]]);
        assert(sorted[order[i]].end() <= joined(sorted).len());
    }
    lemma_chunks_received(announced, file_name, chunks);
    lemma_transfer_round_trip(chunks, sorted, order, place);
}

/// An error cleans up: after the error message for a file, the file has no
/// session, and once the request that comes with it is carried out, no file
/// of that name is left.
pub proof fn lemma_error_cleans_up(start: Receiver, file_name: Seq<char>, error: Seq<char>)
    ensures
        !start.after(MessageView::FileTransferError { file_name, error }).sessions.contains(
            file_name,
        ),
        !start.after(MessageView::FileTransferError { file_name, error }).files.contains_key(
            file_name,
        ),
{
}

/// The outcome of a file's creation, as plain values.
pub open spec fn creation_of(outcome: Result<(), String>) -> Result<(), Seq<char>> {
    match outcome {
        Ok(_) => Ok(()),
        Err(reason) => Err(reason@),
    }
}

/// The names of a list of sessions.
pub open spec fn names_of(sessions: Seq<String>) -> Seq<Seq<char>> {
    Seq::new(sessions.len(), |i: int| sessions[i]@)
}

/// The file transfer handler's sessions.
pub struct FileTransferPlugin {
    active_transfers: Vec<String>,
}

impl FileTransferPlugin {
    #[verifier::type_invariant]
    spec fn well_formed(&self) -> bool {
        names_of(self.active_transfers@).no_duplicates()
    }

    /// The names of the files that are being received.
    pub closed spec fn sessions(&self) -> Set<Seq<char>> {
        names_of(self.active_transfers@).to_set()
    }

    /// Creates the handler, without sessions.
    pub fn new() -> (plugin: FileTransferPlugin)
        ensures
            plugin.sessions() == Set::<Seq<char>>::empty(),
    {
        let plugin = FileTransferPlugin { active_transfers: Vec::new() };
        assert(names_of(plugin.active_transfers@) =~= Seq::empty());
        assert(plugin.sessions() =~= Set::<Seq<char>>::empty());
        plugin
    }

    /// The handler's name.
    pub fn name(&self) -> (name: &'static str)
        ensures
            name@ == "file-transfer"@,
    {
        "file-transfer"
    }

    fn position(&self, file_name: &str) -> (found: Option<usize>)
        ensures
            match found {
                Some(i) => i < self.active_transfers.len() && self.active_transfers@[i as int]@
                    == file_name@,
                None => !self.sessions().contains(file_name@),
            },
    {
        let mut i: usize = 0;
        while i < self.active_transfers.len()
            invariant
                i <= self.active_transfers.len(),
                forall|j: int| 0 <= j < i ==> self.active_transfers@[j]@ != file_name@,
            decreases self.active_transfers.len() - i,
        {
            if str_eq(self.active_transfers[i].as_str(), file_name) {
                return Some(i);
            }
            i = i + 1;
        }
        proof {
            let names = names_of(self.active_transfers@);
            if names.contains(file_name@) {
                let j = choose|j: int| 0 <= j < names.len() && names[j] == file_name@;
                assert(self.active_transfers@[j]@ == file_name@);
            }
        }
        None
    }

    /// Whether a file is being received under the name.
    pub fn has_session(&self, file_name: &str) -> (active: bool)
        ensures
            active == self.sessions().contains(file_name@),
    {
        match self.position(file_name) {
            Some(i) => {
                assert(names_of(self.active_transfers@)[i as int] == file_name@);
                true
            },
            None => false,
        }
    }

    /// The number of files that are being received.
    pub fn session_count(&self) -> (count: usize)
        ensures
            self.sessions().finite(),
            count == self.sessions().len(),
    {
        proof {
            use_type_invariant(self);
            names_of(self.active_transfers@).unique_seq_to_set();
        }
        self.active_transfers.len()
    }

    fn end_session(&mut self, file_name: &str) -> (ended: bool)
        ensures
            final(self).sessions() == old(self).sessions().remove(file_name@),
            ended == old(self).sessions().contains(file_name@),
    {
        proof {
            use_type_invariant(&*self);
        }
        let ghost before = names_of(self.active_transfers@);
        match self.position(file_name) {
            Some(i) => {
                let mut sessions: Vec<String> = Vec::new();
                assert(names_of(sessions@) =~= Seq::empty());
                std::mem::swap(&mut self.active_transfers, &mut sessions);
                sessions.remove(i);
                proof {
                    let after = names_of(sessions@);
                    assert(after =~= before.remove(i as int));
                    assert(before[i as int] == file_name@);
                    assert forall|a: int, b: int|
                        0 <= a < after.len() && 0 <= b < after.len() && a != b implies after[a]
                        != after[b] by {
                        let a0 = if a < i { a } else { a + 1 };
                        let b0 = if b < i { b } else { b + 1 };
                        assert(before[a0] != before[b0]);
                    }
                    assert forall|name: Seq<char>| after.to_set().contains(name) <==> (
                    before.to_set().contains(name) && name != file_name@) by {
                        if after.contains(name) {
                            let a = choose|a: int| 0 <= a < after.len() && after[a] == name;
                            let a0 = if a < i { a } else { a + 1 };
                            assert(before[a0] == name);
                            assert(before[a0] != before[i as int]);
                        }
                        if before.contains(name) && name != file_name@ {
                            let b = choose|b: int| 0 <= b < before.len() && before[b] == name;
                            let b0 = if b < i { b } else { b - 1 };
                            assert(after[b0] == name);
                        }
                    }
                    assert(after.to_set() =~= before.to_set().remove(file_name@));
                }
                std::mem::swap(&mut self.active_transfers, &mut sessions);
                true
            },
            None => {
                assert(before.to_set().remove(file_name@) =~= before.to_set());
                false
            },
        }
    }

    /// What is to be done to the files for a message. The end of a transfer
    /// and an error end the file's session here and now.
    pub fn handle_message(&mut self, message: &Message, sender_id: &DeviceId) -> (request:
        FileRequest)
        ensures
            request@ == file_request(old(self).sessions(), message@),
            final(self).sessions() == sessions_after(old(self).sessions(), message@),
    {
        match message {
            Message::FileTransferRequest { file_name, file_size } => FileRequest::Create {
                file_name: file_name.clone(),
            },
            Message::FileTransferChunk { file_name, chunk, offset } => {
                if self.has_session(file_name.as_str()) {
                    FileRequest::Write {
                        file_name: file_name.clone(),
                        offset: *offset,
                        data: chunk.clone(),
                    }
                } else {
                    FileRequest::Ignore
                }
            },
            Message::FileTransferEnd { file_name } => {
                if self.end_session(file_name.as_str()) {
                    FileRequest::Close { file_name: file_name.clone() }
                } else {
                    FileRequest::Ignore
                }
            },
            Message::FileTransferError { file_name, error } => {
                self.end_session(file_name.as_str());
                FileRequest::Remove { file_name: file_name.clone() }
            },
            _ => FileRequest::Ignore,
        }
    }

    /// Takes note of how the creation of an announced file went. Where the
    /// file was created, its session begins and there is no response. Where
    /// it was not, no session begins and the sender is told why.
    pub fn file_created(&mut self, file_name: &str, outcome: Result<(), String>) -> (result: Result<
        Option<Message>,
        PluginError,
    >)
        ensures
            match creation_of(outcome) {
                Ok(_) => final(self).sessions() == old(self).sessions().insert(file_name@)
                    && outcome_of(result) == Outcome::Silent,
                Err(reason) => final(self).sessions() == old(self).sessions() && outcome_of(result)
                    == Outcome::Reply(
                    MessageView::FileTransferError { file_name: file_name@, error: reason },
                ),
            },
    {
        proof {
            use_type_invariant(&*self);
        }
        match outcome {
            Ok(_) => {
                let ghost before = names_of(self.active_transfers@);
                let found = self.position(file_name);
                if found.is_none() {
                    let mut sessions: Vec<String> = Vec::new();
                    assert(names_of(sessions@) =~= Seq::empty());
                    std::mem::swap(&mut self.active_transfers, &mut sessions);
                    sessions.push(String::from_str(file_name));
                    proof {
                        let after = names_of(sessions@);
                        assert(after =~= before.push(file_name@));
                        assert forall|a: int, b: int|
                            0 <= a < after.len() && 0 <= b < after.len() && a != b implies after[a]
                            != after[b] by {
                            if a < before.len() && b < before.len() {
                                assert(before[a] != before[b]);
                            } else if a < before.len() {
                                assert(before.contains(before[a]));
                            } else {
                                assert(before.contains(before[b]));
                            }
                        }
                        assert forall|name: Seq<char>| after.to_set().contains(name) <==> (
                        before.to_set().contains(name) || name == file_name@) by {
                            if after.contains(name) {
                                let a = choose|a: int| 0 <= a < after.len() && after[a] == name;
                                if a < before.len() {
                                    assert(before[a] == name);
                                }
                            }
                            if before.contains(name) {
                                let b = choose|b: int| 0 <= b < before.len() && before[b] == name;
                                assert(after[b] == name);
                            }
                            if name == file_name@ {
                                assert(after[after.len() - 1] == name);
                            }
                        }
                        assert(after.to_set() =~= before.to_set().insert(file_name@));
                    }
                    std::mem::swap(&mut self.active_transfers, &mut sessions);
                } else {
                    assert(before[found.unwrap() as int] == file_name@);
                    assert(before.to_set().insert(file_name@) =~= before.to_set());
                }
                Ok(None)
            },
            Err(reason) => Ok(
                Some(
                    Message::FileTransferError {
                        file_name: String::from_str(file_name),
                        error: reason,
                    },
                ),
            ),
        }
    }
}

impl Default for FileTransferPlugin {
    fn default() -> (plugin: FileTransferPlugin)
        ensures
            plugin.sessions() == Set::<Seq<char>>::empty(),
    {
        FileTransferPlugin::new()
    }
}

} // verus!
