//! Status display controller.
//!
//! The display task is purely reactive: it consumes address and status events
//! from its mailbox and renders them at fixed screen positions.  An assigned
//! address is rendered as four dot-separated byte values; a status code is
//! looked up in a fixed table of human-readable texts, each padded to one
//! constant width so that it fully overwrites any previous, possibly longer,
//! message.  Codes 0 to 15 are the join-failure reasons reported by the radio
//! collaborator; 16 and 17 are the session server's own listening/connected
//! states.  An index outside the table is an internal defect, not a runtime
//! condition, and is excluded by precondition rather than recovered from.

use vstd::prelude::*;
use vstd::string::StringExecFns;
use crate::mailbox::Mailbox;

verus! {

/// Number of entries in the status table.
pub const STATUS_COUNT: usize = 18;

/// Width every status text is padded to, in characters.
pub const STATUS_WIDTH: usize = 47;

/// Screen row of the address heading.
pub const ROW_IP: u8 = 0;

/// Screen row the assigned address is rendered on.
pub const ROW_IP_ADDR: u8 = 1;

/// Screen row of the status heading.
pub const ROW_STATUS: u8 = 3;

/// Screen row the status text is rendered on.
pub const ROW_STATUS_MSG: u8 = 4;

/// Status code published when the server starts listening.
pub const STATUS_LISTENING: usize = 16;

/// Status code published when a client connection is accepted.
pub const STATUS_CONNECTED: usize = 17;

/// A network address: four address bytes plus the prefix length, valid only
/// once address assignment has completed.  The network stack owns the real
/// address; this is the plain-value form the display logic reads.
#[derive(Clone, Copy, Debug, PartialEq, Eq, Structural)]
pub struct NetAddress {
    pub octet0: u8,
    pub octet1: u8,
    pub octet2: u8,
    pub octet3: u8,
    pub prefix_len: u8,
}

impl NetAddress {
    /// A prefix length never exceeds the 32 bits of the address.
    pub open spec fn inv(&self) -> bool {
        self.prefix_len <= 32
    }

    /// Build an address from its four bytes and prefix length.
    pub fn new(octet0: u8, octet1: u8, octet2: u8, octet3: u8, prefix_len: u8) -> (address:
        NetAddress)
        requires
            prefix_len <= 32,
        ensures
            address == (NetAddress { octet0, octet1, octet2, octet3, prefix_len }),
            address.inv(),
    {
        NetAddress { octet0, octet1, octet2, octet3, prefix_len }
    }
}

/// One display event: either the freshly assigned network address or a
/// status code indexing the fixed table.  Ephemeral, mailbox payload only.
#[derive(Clone, Copy, Debug, PartialEq, Eq, Structural)]
pub enum Command {
    Addr(NetAddress),
    Status(usize),
}

/// A well-formed display event: a status index lies inside the table and an
/// address is valid.
pub open spec fn wf_command(command: Command) -> bool {
    match command {
        Command::Addr(address) => address.inv(),
        Command::Status(index) => index < STATUS_COUNT,
    }
}

/// Publish a display event towards the display task, overwriting any event
/// it has not consumed yet.
pub fn send_command(control: &mut Mailbox<Command>, command: Command)
    ensures
        final(control)@ == Some(command),
{
    control.publish(command);
}

/// The decimal digit character for a value in 0 to 9.
pub open spec fn decimal_digit(value: int) -> char {
    if value == 0 {
        '0'
    } else if value == 1 {
        '1'
    } else if value == 2 {
        '2'
    } else if value == 3 {
        '3'
    } else if value == 4 {
        '4'
    } else if value == 5 {
        '5'
    } else if value == 6 {
        '6'
    } else if value == 7 {
        '7'
    } else if value == 8 {
        '8'
    } else {
        '9'
    }
}

/// The shortest decimal text of one address byte: one, two or three digits,
/// no leading zeroes.
pub open spec fn octet_text(value: int) -> Seq<char> {
    if value < 10 {
        seq![decimal_digit(value)]
    } else if value < 100 {
        seq![decimal_digit(value / 10), decimal_digit(value % 10)]
    } else {
        seq![decimal_digit(value / 100), decimal_digit((value / 10) % 10), decimal_digit(value % 10)]
    }
}

/// The dotted-decimal text of a whole address: four byte texts separated by
/// dots.
pub open spec fn address_text(address: NetAddress) -> Seq<char> {
    octet_text(address.octet0 as int) + seq!['.'] + octet_text(address.octet1 as int) + seq!['.']
        + octet_text(address.octet2 as int) + seq!['.'] + octet_text(address.octet3 as int)
}

/// The one-character text of a decimal digit.
fn digit_str(digit: u8) -> (text: &'static str)
    requires
        digit < 10,
    ensures
        text@ == seq![decimal_digit(digit as int)],
{
    match digit {
        0 => {
            proof {
                reveal_strlit("0");
                assert("0"@ =~= seq![decimal_digit(0)]);
            }
            "0"
        },
        1 => {
            proof {
                reveal_strlit("1");
                assert("1"@ =~= seq![decimal_digit(1)]);
            }
            "1"
        },
        2 => {
            proof {
                reveal_strlit("2");
                assert("2"@ =~= seq![decimal_digit(2)]);
            }
            "2"
        },
        3 => {
            proof {
                reveal_strlit("3");
                assert("3"@ =~= seq![decimal_digit(3)]);
            }
            "3"
        },
        4 => {
            proof {
                reveal_strlit("4");
                assert("4"@ =~= seq![decimal_digit(4)]);
            }
            "4"
        },
        5 => {
            proof {
                reveal_strlit("5");
                assert("5"@ =~= seq![decimal_digit(5)]);
            }
            "5"
        },
        6 => {
            proof {
                reveal_strlit("6");
                assert("6"@ =~= seq![decimal_digit(6)]);
            }
            "6"
        },
        7 => {
            proof {
                reveal_strlit("7");
                assert("7"@ =~= seq![decimal_digit(7)]);
            }
            "7"
        },
        8 => {
            proof {
                reveal_strlit("8");
                assert("8"@ =~= seq![decimal_digit(8)]);
            }
            "8"
        },
        _ => {
            proof {
                assert(digit == 9);
                reveal_strlit("9");
                assert("9"@ =~= seq![decimal_digit(9)]);
            }
            "9"
        },
    }
}

/// Render one address byte as its shortest decimal text.
pub fn format_octet(value: u8) -> (text: String)
    ensures
        text@ == octet_text(value as int),
{
    if value < 10 {
        let text = String::from_str(digit_str(value));
        proof {
            assert(text@ =~= octet_text(value as int));
        }
        text
    } else if value < 100 {
        let mut text = String::from_str(digit_str(value / 10));
        text.append(digit_str(value % 10));
        proof {
            assert(text@ =~= octet_text(value as int));
        }
        text
    } else {
        let mut text = String::from_str(digit_str(value / 100));
        text.append(digit_str((value / 10) % 10));
        text.append(digit_str(value % 10));
        proof {
            assert(text@ =~= octet_text(value as int));
        }
        text
    }
}

/// Render a whole address as dotted-decimal text.
pub fn format_address(address: &NetAddress) -> (text: String)
    ensures
        text@ == address_text(*address),
{
    proof {
        reveal_strlit(".");
        assert("."@ =~= seq!['.']);
    }
    let mut text = format_octet(address.octet0);
    text.append(".");
    let part = format_octet(address.octet1);
    text.append(part.as_str());
    text.append(".");
    let part = format_octet(address.octet2);
    text.append(part.as_str());
    text.append(".");
    let part = format_octet(address.octet3);
    text.append(part.as_str());
    proof {
        assert(text@ =~= address_text(*address));
    }
    text
}

/// The fixed status table: the text rendered for each status code.  Codes
/// 0 to 15 name the join-failure reasons, 16 and 17 the session states.
/// Every entry is padded to `STATUS_WIDTH` characters.
pub open spec fn status_text(index: int) -> Seq<char> {
    if index == 0 {
        "Success                                        "@
    } else if index == 1 {
        "Operation Failed                               "@
    } else if index == 2 {
        "Time Out                                       "@
    } else if index == 3 {
        "No Matching Network Found                      "@
    } else if index == 4 {
        "Aborted                                        "@
    } else if index == 5 {
        "Packet not acknowledged                        "@
    } else if index == 6 {
        "AUTH or ASSOC packet was unsolicited           "@
    } else if index == 7 {
        "Attempt to ASSOC to an auto auth configuration "@
    } else if index == 8 {
        "Incomplete Scan                                "@
    } else if index == 9 {
        "Scan aborted by another scan                   "@
    } else if index == 10 {
        "Scan aborted due to assoc in progress          "@
    } else if index == 11 {
        "802.11h quiet period started                   "@
    } else if index == 12 {
        "User disabled scanning (WLC_SET_SCANSUPPRESS)  "@
    } else if index == 13 {
        "No allowable channels to scat                  "@
    } else if index == 14 {
        "Scan aborted due to CCX fast roam              "@
    } else if index == 15 {
        "Abort channel select                           "@
    } else if index == 16 {
        "Listening on    Port 1234                      "@
    } else if index == 17 {
        "TCP is Connected                               "@
    } else {
        Seq::empty()
    }
}

/// Look one status code up in the fixed table.
pub fn status_message(index: usize) -> (message: &'static str)
    requires
        index < STATUS_COUNT,
    ensures
        message@ == status_text(index as int),
{
    if index == 0 {
        "Success                                        "
    } else if index == 1 {
        "Operation Failed                               "
    } else if index == 2 {
        "Time Out                                       "
    } else if index == 3 {
        "No Matching Network Found                      "
    } else if index == 4 {
        "Aborted                                        "
    } else if index == 5 {
        "Packet not acknowledged                        "
    } else if index == 6 {
        "AUTH or ASSOC packet was unsolicited           "
    } else if index == 7 {
        "Attempt to ASSOC to an auto auth configuration "
    } else if index == 8 {
        "Incomplete Scan                                "
    } else if index == 9 {
        "Scan aborted by another scan                   "
    } else if index == 10 {
        "Scan aborted due to assoc in progress          "
    } else if index == 11 {
        "802.11h quiet period started                   "
    } else if index == 12 {
        "User disabled scanning (WLC_SET_SCANSUPPRESS)  "
    } else if index == 13 {
        "No allowable channels to scat                  "
    } else if index == 14 {
        "Scan aborted due to CCX fast roam              "
    } else if index == 15 {
        "Abort channel select                           "
    } else if index == 16 {
        "Listening on    Port 1234                      "
    } else {
        "TCP is Connected                               "
    }
}

/// What one consumed display event asks the rendering collaborator to draw:
/// a text at a column and row of the screen.
pub struct RenderAction {
    pub column: u8,
    pub row: u8,
    pub text: String,
}

/// Decide what an event renders: an address becomes dotted-decimal text on
/// the address row, a status code becomes its padded table text on the
/// status row.
pub fn render_command(command: &Command) -> (action: RenderAction)
    requires
        wf_command(*command),
    ensures
        (match *command {
            Command::Addr(address) => action.column == 0 && action.row == ROW_IP_ADDR
                && action.text@ == address_text(address),
            Command::Status(index) => action.column == 0 && action.row == ROW_STATUS_MSG
                && action.text@ == status_text(index as int),
        }),
{
    match command {
        Command::Addr(address) => RenderAction {
            column: 0,
            row: ROW_IP_ADDR,
            text: format_address(address),
        },
        Command::Status(index) => RenderAction {
            column: 0,
            row: ROW_STATUS_MSG,
            text: String::from_str(status_message(*index)),
        },
    }
}

/// The two headings drawn once after the panel is initialised and cleared.
pub fn init_actions() -> (actions: Vec<RenderAction>)
    ensures
        actions@.len() == 2,
        actions@[0].column == 0 && actions@[0].row == ROW_IP && actions@[0].text@
            == "IP Address:"@,
        actions@[1].column == 0 && actions@[1].row == ROW_STATUS && actions@[1].text@
            == "Status:"@,
{
    let mut actions: Vec<RenderAction> = Vec::new();
    actions.push(RenderAction { column: 0, row: ROW_IP, text: String::from_str("IP Address:") });
    actions.push(RenderAction { column: 0, row: ROW_STATUS, text: String::from_str("Status:") });
    actions
}

/// Status table width law: every entry of the table is exactly
/// `STATUS_WIDTH` characters, so rendering one fully overwrites another.
pub proof fn lemma_status_text_width(index: int)
    requires
        0 <= index < STATUS_COUNT,
    ensures
        status_text(index).len() == STATUS_WIDTH,
{
    reveal_strlit("Success                                        ");
    reveal_strlit("Operation Failed                               ");
    reveal_strlit("Time Out                                       ");
    reveal_strlit("No Matching Network Found                      ");
    reveal_strlit("Aborted                                        ");
    reveal_strlit("Packet not acknowledged                        ");
    reveal_strlit("AUTH or ASSOC packet was unsolicited           ");
    reveal_strlit("Attempt to ASSOC to an auto auth configuration ");
    reveal_strlit("Incomplete Scan                                ");
    reveal_strlit("Scan aborted by another scan                   ");
    reveal_strlit("Scan aborted due to assoc in progress          ");
    reveal_strlit("802.11h quiet period started                   ");
    reveal_strlit("User disabled scanning (WLC_SET_SCANSUPPRESS)  ");
    reveal_strlit("No allowable channels to scat                  ");
    reveal_strlit("Scan aborted due to CCX fast roam              ");
    reveal_strlit("Abort channel select                           ");
    reveal_strlit("Listening on    Port 1234                      ");
    reveal_strlit("TCP is Connected                               ");
}

/// Status table distinctness law: distinct status codes map to distinct
/// texts.
pub proof fn lemma_status_text_distinct(first: int, second: int)
    requires
        0 <= first < STATUS_COUNT,
        0 <= second < STATUS_COUNT,
        first != second,
    ensures
        status_text(first) != status_text(second),
{
    reveal_strlit("Success                                        ");
    reveal_strlit("Operation Failed                               ");
    reveal_strlit("Time Out                                       ");
    reveal_strlit("No Matching Network Found                      ");
    reveal_strlit("Aborted                                        ");
    reveal_strlit("Packet not acknowledged                        ");
    reveal_strlit("AUTH or ASSOC packet was unsolicited           ");
    reveal_strlit("Attempt to ASSOC to an auto auth configuration ");
    reveal_strlit("Incomplete Scan                                ");
    reveal_strlit("Scan aborted by another scan                   ");
    reveal_strlit("Scan aborted due to assoc in progress          ");
    reveal_strlit("802.11h quiet period started                   ");
    reveal_strlit("User disabled scanning (WLC_SET_SCANSUPPRESS)  ");
    reveal_strlit("No allowable channels to scat                  ");
    reveal_strlit("Scan aborted due to CCX fast roam              ");
    reveal_strlit("Abort channel select                           ");
    reveal_strlit("Listening on    Port 1234                      ");
    reveal_strlit("TCP is Connected                               ");
    assert(status_text(0)[1] == 'u');
    assert(status_text(1)[1] == 'p');
    assert(status_text(2)[1] == 'i');
    assert(status_text(3)[1] == 'o');
    assert(status_text(4)[1] == 'b');
    assert(status_text(5)[1] == 'a');
    assert(status_text(6)[1] == 'U');
    assert(status_text(7)[1] == 't');
    assert(status_text(8)[1] == 'n');
    assert(status_text(9)[1] == 'c');
    assert(status_text(10)[1] == 'c');
    assert(status_text(11)[1] == '0');
    assert(status_text(12)[1] == 's');
    assert(status_text(13)[1] == 'o');
    assert(status_text(14)[1] == 'c');
    assert(status_text(15)[1] == 'b');
    assert(status_text(16)[1] == 'i');
    assert(status_text(17)[1] == 'C');
    assert(status_text(0)[16] == ' ');
    assert(status_text(1)[16] == ' ');
    assert(status_text(2)[16] == ' ');
    assert(status_text(3)[16] == 'o');
    assert(status_text(4)[16] == ' ');
    assert(status_text(5)[16] == 'w');
    assert(status_text(6)[16] == 'c');
    assert(status_text(7)[16] == ' ');
    assert(status_text(8)[16] == ' ');
    assert(status_text(9)[16] == 'a');
    assert(status_text(10)[16] == ' ');
    assert(status_text(11)[16] == 'r');
    assert(status_text(12)[16] == 'a');
    assert(status_text(13)[16] == 'n');
    assert(status_text(14)[16] == ' ');
    assert(status_text(15)[16] == 'l');
    assert(status_text(16)[16] == 'P');
    assert(status_text(17)[16] == ' ');
    assert(status_text(0)[20] == ' ');
    assert(status_text(1)[20] == ' ');
    assert(status_text(2)[20] == ' ');
    assert(status_text(3)[20] == 'F');
    assert(status_text(4)[20] == ' ');
    assert(status_text(5)[20] == 'g');
    assert(status_text(6)[20] == ' ');
    assert(status_text(7)[20] == 'a');
    assert(status_text(8)[20] == ' ');
    assert(status_text(9)[20] == 'h');
    assert(status_text(10)[20] == 'a');
    assert(status_text(11)[20] == ' ');
    assert(status_text(12)[20] == 'n');
    assert(status_text(13)[20] == 's');
    assert(status_text(14)[20] == 'C');
    assert(status_text(15)[20] == ' ');
    assert(status_text(16)[20] == ' ');
    assert(status_text(17)[20] == ' ');
}

} // verus!
