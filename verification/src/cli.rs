//! The command line of a node: what each command prints, and what it has
//! to ask the node's web interface for first.
//!
//! No command of this module talks to the web interface itself. A command
//! that needs an answer from it says which address to fetch; what comes
//! back is turned into text by the `render_` functions.
use vstd::prelude::*;
use vstd::string::StringExecFns;
use crate::ident::{fresh_identifier, IDENTIFIER_LEN};
use crate::text::{append_decimal, decimal, replaced, slashes_to_underscores};

verus! {

/// A stored file as the web interface lists it.
#[derive(Clone, Debug)]
pub struct StorageFile {
    pub shard_id: String,
    pub filename: String,
    pub size_bytes: usize,
    pub checksum: String,
    pub redundancy: u8,
    pub timestamp: String,
}

/// The state of the swarm as the web interface reports it.
#[derive(Clone, Debug)]
pub struct NetworkStatus {
    pub total_nodes: usize,
    pub online_nodes: usize,
    pub available_nodes: usize,
    pub network_status: String,
}

/// The commands of the command line.
#[derive(Clone, Debug)]
pub enum CliCommand {
    NodeInfo,
    NodeStart,
    NodeStop,
    StorageStore { file: String, redundancy: u8 },
    StorageGet { cid: String },
    StorageList,
    StorageStats,
    ComputeSubmit { wasm_file: String, input_file: String },
    ComputeStatus { task_id: String },
    BlockchainBalance { address: String },
    BlockchainTransfer { from: String, to: String, amount: u64 },
    NetworkPeers,
    NetworkPing { node_id: String },
    NetworkStatus,
}

/// What a command wants to know from the web interface.
#[derive(Clone, Debug)]
pub enum ApiQuery {
    /// The stored files, to look the file `cid` up among them.
    FileLookup { cid: String },
    /// The stored files, to list them.
    FileList,
    /// The figures of the shard store.
    StorageStats,
    /// The state of the swarm.
    NetworkStatus,
}

/// What running a command comes to.
#[derive(Clone, Debug)]
pub enum CommandStep {
    /// The command is done and prints this text.
    Done(String),
    /// The command needs what a GET of `url` returns.
    Ask { url: String, query: ApiQuery },
}

/// The command line of one node.
pub struct CliService {
    pub node_id: String,
    pub api_url: String,
}

/// The text of `node-info`.
pub open spec fn node_info_text(node_id: Seq<char>, api_url: Seq<char>) -> Seq<char> {
    "Node ID: "@ + node_id + "\nStatus: Running\nAPI URL: "@ + api_url
}

/// The text of `node-start`.
pub open spec fn node_start_text(node_id: Seq<char>) -> Seq<char> {
    "Starting node services...\nNode ID: "@ + node_id + " is now active"@
}

/// The text of `node-stop`.
pub open spec fn node_stop_text(node_id: Seq<char>) -> Seq<char> {
    "Stopping node services...\nNode ID: "@ + node_id + " is now inactive"@
}

/// The text of `storage-store`.
pub open spec fn storage_store_text(file: Seq<char>, redundancy: u8, api_url: Seq<char>) -> Seq<
    char,
> {
    "Storage store command:\n  File: "@ + file + "\n  Redundancy: "@ + decimal(redundancy as nat)
        + "x\n\nNote: Use the web API at "@ + api_url + "/api/upload for actual file uploads"@
}

/// The text of `compute-submit`.
pub open spec fn compute_submit_text(wasm_file: Seq<char>, input_file: Seq<char>) -> Seq<char> {
    "Submitting compute task:\n  WASM file: "@ + wasm_file + "\n  Input file: "@ + input_file
        + "\n  Task ID: task_"@ + replaced(wasm_file, '/', '_')
}

/// The text of `compute-status`.
pub open spec fn compute_status_text(task_id: Seq<char>) -> Seq<char> {
    "Task status for "@ + task_id + ": Completed"@
}

/// The text of `blockchain-balance`.
pub open spec fn balance_text(address: Seq<char>) -> Seq<char> {
    "Balance for "@ + address + ": 1000 XMBL"@
}

/// The text of `blockchain-transfer`, for the transfer `tx_id`.
pub open spec fn transfer_text(amount: u64, from: Seq<char>, to: Seq<char>, tx_id: Seq<char>) -> Seq<
    char,
> {
    "Transferring "@ + decimal(amount as nat) + " XMBL from "@ + from + " to "@ + to
        + "\nTransaction ID: tx_"@ + tx_id
}

/// The text of `network-peers`.
pub open spec fn peers_text() -> Seq<char> {
    "Connected peers:\n  - peer_1 (127.0.0.1:8080)\n  - peer_2 (127.0.0.1:8081)"@
}

/// The text of `network-ping`.
pub open spec fn ping_text(node_id: Seq<char>) -> Seq<char> {
    "Pinging node: "@ + node_id + "\nResponse time: 15ms"@
}

/// The address of the list of stored files.
pub open spec fn files_url(api_url: Seq<char>) -> Seq<char> {
    api_url + "/api/files"@
}

/// The address of the figures of the shard store.
pub open spec fn stats_url(api_url: Seq<char>) -> Seq<char> {
    api_url + "/api/stats"@
}

/// The address of the state of the swarm.
pub open spec fn network_status_url(api_url: Seq<char>) -> Seq<char> {
    api_url + "/api/network/status"@
}

/// The text for a web interface that answered with the failure `status`.
pub open spec fn api_failure_text(query: ApiQuery, status: Seq<char>) -> Seq<char> {
    match query {
        ApiQuery::NetworkStatus => "\u{201a}\u{f9}\u{e5} Failed to connect to network API: HTTP "@ + status,
        _ => "\u{201a}\u{f9}\u{e5} Failed to connect to storage API: HTTP "@ + status,
    }
}

/// The details of a file that was looked up and found.
pub open spec fn file_found_text(file: StorageFile) -> Seq<char> {
    "\u{201a}\u{fa}\u{d6} File found!\n\nFile Details:\n  CID: "@ + file.shard_id@ + "\n  Filename: "@
        + file.filename@ + "\n  Size: "@ + decimal(file.size_bytes as nat) + " bytes\n  Checksum: "@
        + file.checksum@ + "\n  Redundancy: "@ + decimal(file.redundancy as nat)
        + "x\n  Stored: "@ + file.timestamp@
}

/// One line of the list of the files that are there instead.
pub open spec fn available_line(file: StorageFile) -> Seq<char> {
    "  - "@ + file.filename@ + " (CID: "@ + file.shard_id@ + ")"@
}

/// One entry of the list of stored files.
pub open spec fn listed_entry(file: StorageFile) -> Seq<char> {
    "  \u{f8ff}\u{fc}\u{ec}\u{d1} "@ + file.filename@ + "\n    CID: "@ + file.shard_id@ + "\n    Size: "@ + decimal(
        file.size_bytes as nat,
    ) + " bytes\n    Redundancy: "@ + decimal(file.redundancy as nat) + "x\n    Stored: "@
        + file.timestamp@
}

/// The texts that `line` gives for `files`, with `separator` between each
/// two.
pub open spec fn joined(
    files: Seq<StorageFile>,
    line: spec_fn(StorageFile) -> Seq<char>,
    separator: Seq<char>,
) -> Seq<char>
    decreases files.len(),
{
    if files.len() == 0 {
        Seq::empty()
    } else if files.len() == 1 {
        line(files[0])
    } else {
        joined(files.drop_last(), line, separator) + separator + line(files.last())
    }
}

/// The position of the first file with the identifier `cid`.
pub open spec fn first_with_cid(files: Seq<StorageFile>, cid: Seq<char>) -> Option<int>
    decreases files.len(),
{
    if files.len() == 0 {
        None
    } else {
        match first_with_cid(files.drop_last(), cid) {
            Some(i) => Some(i),
            None => if files.last().shard_id@ == cid {
                Some(files.len() - 1)
            } else {
                None
            },
        }
    }
}

/// The text of `storage-get` for the file `cid`, given the stored files.
pub open spec fn file_lookup_text(cid: Seq<char>, files: Seq<StorageFile>) -> Seq<char> {
    match first_with_cid(files, cid) {
        Some(i) => file_found_text(files[i]),
        None => "\u{201a}\u{f9}\u{e5} File not found!\n\nCID: "@ + cid + "\n\nAvailable files:\n"@ + joined(
            files,
            |file: StorageFile| available_line(file),
            "\n"@,
        ),
    }
}

/// The text of `storage-list`, given the stored files.
pub open spec fn file_list_text(files: Seq<StorageFile>) -> Seq<char> {
    if files.len() == 0 {
        "\u{f8ff}\u{fc}\u{ec}\u{c5} No files currently stored in the P2P network"@
    } else {
        "\u{f8ff}\u{fc}\u{ec}\u{c5} Files stored in P2P network ("@ + decimal(files.len()) + " total):\n\n"@ + joined(
            files,
            |file: StorageFile| listed_entry(file),
            "\n\n"@,
        )
    }
}

/// The text of `storage-stats`, given the capacity and the use of the
/// shard store in gigabytes, as text, and the two counts.
pub open spec fn storage_stats_text(
    total_gb: Seq<char>,
    used_gb: Seq<char>,
    shard_count: usize,
    available_nodes: usize,
) -> Seq<char> {
    "\u{f8ff}\u{fc}\u{ec}\u{e4} Storage Statistics:\n\n  Total Storage: "@ + total_gb + " GB\n  Used Storage: "@
        + used_gb + " GB\n  Stored Files: "@ + decimal(shard_count as nat)
        + "\n  Available Nodes: "@ + decimal(available_nodes as nat)
}

/// The text of `network-status`, given the state of the swarm.
pub open spec fn network_status_text(status: NetworkStatus) -> Seq<char> {
    "\u{f8ff}\u{fc}\u{e5}\u{ea} Network Status:\n\n  Total Nodes: "@ + decimal(status.total_nodes as nat)
        + "\n  Online Nodes: "@ + decimal(status.online_nodes as nat) + "\n  Available Nodes: "@
        + decimal(status.available_nodes as nat) + "\n  Status: "@ + status.network_status@
}

/// The lines that the interactive mode opens with.
pub open spec fn banner(node_id: Seq<char>, api_url: Seq<char>) -> Seq<Seq<char>> {
    seq![
        "XMBL CLI Service - Node: "@ + node_id,
        "Connected to real storage API: "@ + api_url,
        "Type 'help' for available commands, 'exit' to quit"@,
    ]
}

/// The default address of the web interface.
pub open spec fn default_api_url() -> Seq<char> {
    "http://localhost:3003"@
}

impl CliService {
    /// What running `command` comes to; `tx_id` stands for the identifier
    /// that a transfer is given.
    pub open spec fn step(self, command: CliCommand, tx_id: Seq<char>, step: CommandStep) -> bool {
        match command {
            CliCommand::NodeInfo => step matches CommandStep::Done(text) && text@ == node_info_text(
                self.node_id@,
                self.api_url@,
            ),
            CliCommand::NodeStart => step matches CommandStep::Done(text) && text@
                == node_start_text(self.node_id@),
            CliCommand::NodeStop => step matches CommandStep::Done(text) && text@ == node_stop_text(
                self.node_id@,
            ),
            CliCommand::StorageStore { file, redundancy } => step matches CommandStep::Done(text)
                && text@ == storage_store_text(file@, redundancy, self.api_url@),
            CliCommand::StorageGet { cid } => {
                &&& step matches CommandStep::Ask { url, query }
                &&& url@ == files_url(self.api_url@)
                &&& query matches ApiQuery::FileLookup { cid: wanted }
                &&& wanted@ == cid@
            },
            CliCommand::StorageList => step matches CommandStep::Ask { url, query } && url@
                == files_url(self.api_url@) && query is FileList,
            CliCommand::StorageStats => step matches CommandStep::Ask { url, query } && url@
                == stats_url(self.api_url@) && query is StorageStats,
            CliCommand::ComputeSubmit { wasm_file, input_file } => step matches CommandStep::Done(
                text,
            ) && text@ == compute_submit_text(wasm_file@, input_file@),
            CliCommand::ComputeStatus { task_id } => step matches CommandStep::Done(text) && text@
                == compute_status_text(task_id@),
            CliCommand::BlockchainBalance { address } => step matches CommandStep::Done(text)
                && text@ == balance_text(address@),
            CliCommand::BlockchainTransfer { from, to, amount } => step matches CommandStep::Done(
                text,
            ) && text@ == transfer_text(amount, from@, to@, tx_id),
            CliCommand::NetworkPeers => step matches CommandStep::Done(text) && text@
                == peers_text(),
            CliCommand::NetworkPing { node_id } => step matches CommandStep::Done(text) && text@
                == ping_text(node_id@),
            CliCommand::NetworkStatus => step matches CommandStep::Ask { url, query } && url@
                == network_status_url(self.api_url@) && query is NetworkStatus,
        }
    }

    /// The command line of the node `node_id`, with the web interface at
    /// its default address.
    pub fn new(node_id: String) -> (service: Self)
        ensures
            service.node_id == node_id,
            service.api_url@ == default_api_url(),
    {
        CliService { node_id, api_url: "http://localhost:3003".to_owned() }
    }

    /// Runs `command`: a command that needs nothing from the web
    /// interface is done at once, the others say what to fetch. A
    /// transfer is given a fresh random identifier.
    pub fn run_command(&self, command: CliCommand) -> (step: CommandStep)
        ensures
            exists|tx_id: Seq<char>| tx_id.len() == IDENTIFIER_LEN && #[trigger] self.step(command, tx_id, step),
    {
        let tx_id = fresh_identifier();
        let ghost id = tx_id@;
        let step = self.run_command_with(command, tx_id);
        assert(self.step(command, id, step));
        step
    }

    /// Runs `command` as `run_command` does, with `tx_id` as the
    /// identifier that a transfer is given.
    pub fn run_command_with(&self, command: CliCommand, tx_id: String) -> (step: CommandStep)
        ensures
            self.step(command, tx_id@, step),
    {
        match command {
            CliCommand::NodeInfo => {
                let mut text = "Node ID: ".to_owned();
                text.append(self.node_id.as_str());
                text.append("\nStatus: Running\nAPI URL: ");
                text.append(self.api_url.as_str());
                assert(text@ =~= node_info_text(self.node_id@, self.api_url@));
                CommandStep::Done(text)
            },
            CliCommand::NodeStart => {
                let mut text = "Starting node services...\nNode ID: ".to_owned();
                text.append(self.node_id.as_str());
                text.append(" is now active");
                assert(text@ =~= node_start_text(self.node_id@));
                CommandStep::Done(text)
            },
            CliCommand::NodeStop => {
                let mut text = "Stopping node services...\nNode ID: ".to_owned();
                text.append(self.node_id.as_str());
                text.append(" is now inactive");
                assert(text@ =~= node_stop_text(self.node_id@));
                CommandStep::Done(text)
            },
            CliCommand::StorageStore { file, redundancy } => CommandStep::Done(
                self.storage_store(file.as_str(), redundancy),
            ),
            CliCommand::StorageGet { cid } => {
                let mut url = self.api_url.clone();
                url.append("/api/files");
                assert(url@ =~= files_url(self.api_url@));
                CommandStep::Ask { url, query: ApiQuery::FileLookup { cid } }
            },
            CliCommand::StorageList => {
                let mut url = self.api_url.clone();
                url.append("/api/files");
                assert(url@ =~= files_url(self.api_url@));
                CommandStep::Ask { url, query: ApiQuery::FileList }
            },
            CliCommand::StorageStats => {
                let mut url = self.api_url.clone();
                url.append("/api/stats");
                assert(url@ =~= stats_url(self.api_url@));
                CommandStep::Ask { url, query: ApiQuery::StorageStats }
            },
            CliCommand::ComputeSubmit { wasm_file, input_file } => {
                let mut text = "Submitting compute task:\n  WASM file: ".to_owned();
                text.append(wasm_file.as_str());
                text.append("\n  Input file: ");
                text.append(input_file.as_str());
                text.append("\n  Task ID: task_");
                text.append(slashes_to_underscores(wasm_file.as_str()).as_str());
                assert(text@ =~= compute_submit_text(wasm_file@, input_file@));
                CommandStep::Done(text)
            },
            CliCommand::ComputeStatus { task_id } => {
                let mut text = "Task status for ".to_owned();
                text.append(task_id.as_str());
                text.append(": Completed");
                assert(text@ =~= compute_status_text(task_id@));
                CommandStep::Done(text)
            },
            CliCommand::BlockchainBalance { address } => {
                let mut text = "Balance for ".to_owned();
                text.append(address.as_str());
                text.append(": 1000 XMBL");
                assert(text@ =~= balance_text(address@));
                CommandStep::Done(text)
            },
            CliCommand::BlockchainTransfer { from, to, amount } => {
                let mut text = "Transferring ".to_owned();
                append_decimal(&mut text, amount as u128);
                text.append(" XMBL from ");
                text.append(from.as_str());
                text.append(" to ");
                text.append(to.as_str());
                text.append("\nTransaction ID: tx_");
                text.append(tx_id.as_str());
                assert(text@ =~= transfer_text(amount, from@, to@, tx_id@));
                CommandStep::Done(text)
            },
            CliCommand::NetworkPeers => CommandStep::Done(
                "Connected peers:\n  - peer_1 (127.0.0.1:8080)\n  - peer_2 (127.0.0.1:8081)".to_owned(),
            ),
            CliCommand::NetworkPing { node_id } => {
                let mut text = "Pinging node: ".to_owned();
                text.append(node_id.as_str());
                text.append("\nResponse time: 15ms");
                assert(text@ =~= ping_text(node_id@));
                CommandStep::Done(text)
            },
            CliCommand::NetworkStatus => {
                let mut url = self.api_url.clone();
                url.append("/api/network/status");
                assert(url@ =~= network_status_url(self.api_url@));
                CommandStep::Ask { url, query: ApiQuery::NetworkStatus }
            },
        }
    }

    /// The text of `storage-store`: files are uploaded through the web
    /// interface, not the command line.
    pub fn storage_store(&self, file: &str, redundancy: u8) -> (text: String)
        ensures
            text@ == storage_store_text(file@, redundancy, self.api_url@),
    {
        let mut text = "Storage store command:\n  File: ".to_owned();
        text.append(file);
        text.append("\n  Redundancy: ");
        append_decimal(&mut text, redundancy as u128);
        text.append("x\n\nNote: Use the web API at ");
        text.append(self.api_url.as_str());
        text.append("/api/upload for actual file uploads");
        assert(text@ =~= storage_store_text(file@, redundancy, self.api_url@));
        text
    }

    /// The text for a web interface that answered `query` with the
    /// failure `status`.
    pub fn render_api_failure(query: &ApiQuery, status: &str) -> (text: String)
        ensures
            text@ == api_failure_text(*query, status@),
    {
        let mut text = match query {
            ApiQuery::NetworkStatus => "\u{201a}\u{f9}\u{e5} Failed to connect to network API: HTTP ".to_owned(),
            _ => "\u{201a}\u{f9}\u{e5} Failed to connect to storage API: HTTP ".to_owned(),
        };
        text.append(status);
        text
    }

    /// The text of `storage-get` for the file `cid`, given the stored
    /// files: the details of the first file with that identifier, or the
    /// files that are there instead.
    pub fn render_file_lookup(cid: &str, files: &Vec<StorageFile>) -> (text: String)
        ensures
            text@ == file_lookup_text(cid@, files@),
    {
        let wanted = cid.to_owned();
        let mut i: usize = 0;
        assert(files@.take(0) =~= Seq::<StorageFile>::empty());
        while i < files.len()
            invariant
                i <= files@.len(),
                wanted@ == cid@,
                first_with_cid(files@.take(i as int), cid@) is None,
            decreases files@.len() - i,
        {
            proof {
                assert(files@.take(i + 1).drop_last() =~= files@.take(i as int));
                assert(files@.take(i + 1).last() == files@[i as int]);
            }
            if files[i].shard_id == wanted {
                proof {
                    lemma_first_with_cid_rest(files@, cid@, i as int + 1);
                }
                return Self::file_found(&files[i]);
            }
            i += 1;
        }
        assert(files@.take(files@.len() as int) =~= files@);
        let mut text = "\u{201a}\u{f9}\u{e5} File not found!\n\nCID: ".to_owned();
        text.append(cid);
        text.append("\n\nAvailable files:\n");
        let ghost head = text@;
        let mut j: usize = 0;
        assert(files@.take(0) =~= Seq::<StorageFile>::empty());
        while j < files.len()
            invariant
                j <= files@.len(),
                text@ == head + joined(
                    files@.take(j as int),
                    |file: StorageFile| available_line(file),
                    "\n"@,
                ),
            decreases files@.len() - j,
        {
            proof {
                assert(files@.take(j + 1).drop_last() =~= files@.take(j as int));
                assert(files@.take(j + 1).last() == files@[j as int]);
                if j == 0 {
                    assert(files@.take(1)[0] == files@[0]);
                }
            }
            let ghost before = text@;
            if j > 0 {
                text.append("\n");
            }
            text.append("  - ");
            text.append(files[j].filename.as_str());
            text.append(" (CID: ");
            text.append(files[j].shard_id.as_str());
            text.append(")");
            assert(text@ =~= before + (if j > 0 {
                "\n"@
            } else {
                Seq::empty()
            }) + available_line(files@[j as int]));
            assert(text@ =~= head + joined(
                files@.take(j + 1),
                |file: StorageFile| available_line(file),
                "\n"@,
            ));
            j += 1;
        }
        assert(files@.take(files@.len() as int) =~= files@);
        assert(text@ =~= file_lookup_text(cid@, files@));
        text
    }

    /// The details of a file that was looked up and found.
    pub fn file_found(file: &StorageFile) -> (text: String)
        ensures
            text@ == file_found_text(*file),
    {
        let mut text = "\u{201a}\u{fa}\u{d6} File found!\n\nFile Details:\n  CID: ".to_owned();
        text.append(file.shard_id.as_str());
        text.append("\n  Filename: ");
        text.append(file.filename.as_str());
        text.append("\n  Size: ");
        append_decimal(&mut text, file.size_bytes as u128);
        text.append(" bytes\n  Checksum: ");
        text.append(file.checksum.as_str());
        text.append("\n  Redundancy: ");
        append_decimal(&mut text, file.redundancy as u128);
        text.append("x\n  Stored: ");
        text.append(file.timestamp.as_str());
        assert(text@ =~= file_found_text(*file));
        text
    }

    /// The text of `storage-list`, given the stored files.
    pub fn render_file_list(files: &Vec<StorageFile>) -> (text: String)
        ensures
            text@ == file_list_text(files@),
    {
        if files.len() == 0 {
            return "\u{f8ff}\u{fc}\u{ec}\u{c5} No files currently stored in the P2P network".to_owned();
        }
        let mut text = "\u{f8ff}\u{fc}\u{ec}\u{c5} Files stored in P2P network (".to_owned();
        append_decimal(&mut text, files.len() as u128);
        text.append(" total):\n\n");
        let ghost head = text@;
        let mut j: usize = 0;
        assert(files@.take(0) =~= Seq::<StorageFile>::empty());
        while j < files.len()
            invariant
                j <= files@.len(),
                text@ == head + joined(
                    files@.take(j as int),
                    |file: StorageFile| listed_entry(file),
                    "\n\n"@,
                ),
            decreases files@.len() - j,
        {
            proof {
                assert(files@.take(j + 1).drop_last() =~= files@.take(j as int));
                assert(files@.take(j + 1).last() == files@[j as int]);
                if j == 0 {
                    assert(files@.take(1)[0] == files@[0]);
                }
            }
            let ghost before = text@;
            if j > 0 {
                text.append("\n\n");
            }
            text.append("  \u{f8ff}\u{fc}\u{ec}\u{d1} ");
            text.append(files[j].filename.as_str());
            text.append("\n    CID: ");
            text.append(files[j].shard_id.as_str());
            text.append("\n    Size: ");
            append_decimal(&mut text, files[j].size_bytes as u128);
            text.append(" bytes\n    Redundancy: ");
            append_decimal(&mut text, files[j].redundancy as u128);
            text.append("x\n    Stored: ");
            text.append(files[j].timestamp.as_str());
            assert(text@ =~= before + (if j > 0 {
                "\n\n"@
            } else {
                Seq::empty()
            }) + listed_entry(files@[j as int]));
            assert(text@ =~= head + joined(
                files@.take(j + 1),
                |file: StorageFile| listed_entry(file),
                "\n\n"@,
            ));
            j += 1;
        }
        assert(files@.take(files@.len() as int) =~= files@);
        assert(text@ =~= file_list_text(files@));
        text
    }

    /// The text of `storage-stats`, given the capacity and the use of the
    /// shard store in gigabytes, as text, and the two counts.
    pub fn render_storage_stats(
        total_gb: &str,
        used_gb: &str,
        shard_count: usize,
        available_nodes: usize,
    ) -> (text: String)
        ensures
            text@ == storage_stats_text(total_gb@, used_gb@, shard_count, available_nodes),
    {
        let mut text = "\u{f8ff}\u{fc}\u{ec}\u{e4} Storage Statistics:\n\n  Total Storage: ".to_owned();
        text.append(total_gb);
        text.append(" GB\n  Used Storage: ");
        text.append(used_gb);
        text.append(" GB\n  Stored Files: ");
        append_decimal(&mut text, shard_count as u128);
        text.append("\n  Available Nodes: ");
        append_decimal(&mut text, available_nodes as u128);
        assert(text@ =~= storage_stats_text(total_gb@, used_gb@, shard_count, available_nodes));
        text
    }

    /// The text of `network-status`, given the state of the swarm.
    pub fn render_network_status(status: &NetworkStatus) -> (text: String)
        ensures
            text@ == network_status_text(*status),
    {
        let mut text = "\u{f8ff}\u{fc}\u{e5}\u{ea} Network Status:\n\n  Total Nodes: ".to_owned();
        append_decimal(&mut text, status.total_nodes as u128);
        text.append("\n  Online Nodes: ");
        append_decimal(&mut text, status.online_nodes as u128);
        text.append("\n  Available Nodes: ");
        append_decimal(&mut text, status.available_nodes as u128);
        text.append("\n  Status: ");
        text.append(status.network_status.as_str());
        assert(text@ =~= network_status_text(*status));
        text
    }

    /// The lines that the interactive mode opens with.
    pub fn run_interactive(&self) -> (lines: Vec<String>)
        ensures
            Seq::new(lines@.len(), |i: int| lines@[i]@) == banner(self.node_id@, self.api_url@),
    {
        let mut lines: Vec<String> = Vec::new();
        let mut first = "XMBL CLI Service - Node: ".to_owned();
        first.append(self.node_id.as_str());
        let mut second = "Connected to real storage API: ".to_owned();
        second.append(self.api_url.as_str());
        lines.push(first);
        lines.push(second);
        lines.push("Type 'help' for available commands, 'exit' to quit".to_owned());
        assert(Seq::new(lines@.len(), |i: int| lines@[i]@) =~= banner(
            self.node_id@,
            self.api_url@,
        ));
        lines
    }
}

/// A file with the identifier among the first files decides the lookup.
proof fn lemma_first_with_cid_rest(files: Seq<StorageFile>, cid: Seq<char>, n: int)
    requires
        0 < n <= files.len(),
        first_with_cid(files.take(n - 1), cid) is None,
        files[n - 1].shard_id@ == cid,
    ensures
        first_with_cid(files, cid) == Some(n - 1),
    decreases files.len() - n,
{
    assert(files.take(n).drop_last() =~= files.take(n - 1));
    assert(files.take(n).last() == files[n - 1]);
    assert(first_with_cid(files.take(n), cid) == Some(n - 1));
    lemma_first_with_cid_grows(files, cid, n);
}

/// Files that come later change nothing about a lookup that was decided.
proof fn lemma_first_with_cid_grows(files: Seq<StorageFile>, cid: Seq<char>, n: int)
    requires
        0 <= n <= files.len(),
        first_with_cid(files.take(n), cid) is Some,
    ensures
        first_with_cid(files, cid) == first_with_cid(files.take(n), cid),
    decreases files.len() - n,
{
    if n < files.len() {
        assert(files.take(n + 1).drop_last() =~= files.take(n));
        lemma_first_with_cid_grows(files, cid, n + 1);
    } else {
        assert(files.take(n) =~= files);
    }
}

} // verus!
