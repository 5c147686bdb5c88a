//! The menu: its buttons, the commands that they send, and the texts of the
//! bot's answers.

use crate::text::{join, same_text};
use vstd::prelude::*;

verus! {

/// The command that a user starts with.
pub const START_COMMAND: &'static str = "/start";

/// The button buy.
pub const BUY_BUTTON: &'static str = "Buy 🚀";

/// The button sell.
pub const SELL_BUTTON: &'static str = "Sell 🛠️";

/// The button dca orders.
pub const DCA_ORDERS_BUTTON: &'static str = "DCA orders";

/// The button position.
pub const POSITION_BUTTON: &'static str = "Position 📈";

/// The button my trades.
pub const MY_TRADES_BUTTON: &'static str = "My Trades 📊";

/// The button referrals.
pub const REFERRALS_BUTTON: &'static str = "Referrals 💰";

/// The button copy trade.
pub const COPY_TRADE_BUTTON: &'static str = "Copy Trade ⚡";

/// The button withdraw.
pub const WITHDRAW_BUTTON: &'static str = "Withdraw";

/// The button help.
pub const HELP_BUTTON: &'static str = "Help";

/// The button settings.
pub const SETTINGS_BUTTON: &'static str = "Settings ⚙️";

/// The picture above the welcome text.
pub const WELCOME_PHOTO: &'static str = "assets/solana_logo.png";

/// The answer to the buy button.
pub const BUY_PROMPT: &'static str = "Please paste the token contract address to Buy:";

/// The answer to the copy trade button.
pub const COPY_TRADE_PROMPT: &'static str = "Enter the wallet address you wish to copy trade:";

/// The answer to the position button.
pub const POSITION_ANSWER: &'static str = "Fetching your current open positions...";

/// The answer to the help button.
pub const HELP_ANSWER: &'static str = "Axiom bot documentation and support...";

/// The answer to any other text.
pub const UNRECOGNIZED_ANSWER: &'static str = "Unrecognized command. Please use the menu buttons.";

/// The answer to a message without text where a contract address is awaited.
pub const CONTRACT_TEXT_WANTED: &'static str = "Please send a valid text contract address.";

/// The answer to a message without text where a wallet address is awaited.
pub const WALLET_TEXT_WANTED: &'static str = "Please send a valid text wallet address.";

/// The answer to a user who has no wallet yet.
pub const START_FIRST: &'static str = "Please run /start first to create your wallet.";

/// What a user can ask for from the menu.
#[derive(Clone, Copy, Debug, PartialEq, Eq, Structural)]
pub enum Command {
    /// Create a wallet, or show the one there is.
    Start,
    /// Buy a token.
    Buy,
    /// Copy the trades of a wallet.
    CopyTrade,
    /// Show the open positions.
    Position,
    /// Ask for help.
    Help,
    /// Anything else.
    Unrecognized,
}

/// The command that a text stands for.
pub open spec fn command_of(text: Seq<char>) -> Command {
    if text == START_COMMAND@ {
        Command::Start
    } else if text == BUY_BUTTON@ {
        Command::Buy
    } else if text == COPY_TRADE_BUTTON@ {
        Command::CopyTrade
    } else if text == POSITION_BUTTON@ {
        Command::Position
    } else if text == HELP_BUTTON@ {
        Command::Help
    } else {
        Command::Unrecognized
    }
}

/// The text that stands for a command, where there is one.
pub open spec fn command_text(command: Command) -> Option<Seq<char>> {
    match command {
        Command::Start => Some(START_COMMAND@),
        Command::Buy => Some(BUY_BUTTON@),
        Command::CopyTrade => Some(COPY_TRADE_BUTTON@),
        Command::Position => Some(POSITION_BUTTON@),
        Command::Help => Some(HELP_BUTTON@),
        Command::Unrecognized => None,
    }
}

/// Every command has a text of its own: a text stands for a command exactly
/// where it is that command's text.
pub proof fn law_commands_have_own_texts(text: Seq<char>, command: Command)
    requires
        command != Command::Unrecognized,
    ensures
        command_of(text) == command <==> command_text(command) == Some(text),
{
    reveal_strlit("/start");
    reveal_strlit("Buy 🚀");
    reveal_strlit("Copy Trade ⚡");
    reveal_strlit("Position 📈");
    reveal_strlit("Help");
    assert(START_COMMAND@.len() == 6);
    assert(BUY_BUTTON@.len() == 5);
    assert(COPY_TRADE_BUTTON@.len() == 12);
    assert(POSITION_BUTTON@.len() == 10);
    assert(HELP_BUTTON@.len() == 4);
}

/// The five commands are these five texts, letter for letter, and every other
/// text is unrecognized.
pub proof fn law_commands(text: Seq<char>)
    ensures
        command_of(text) == Command::Start <==> text == "/start"@,
        command_of(text) == Command::Buy <==> text == "Buy 🚀"@,
        command_of(text) == Command::CopyTrade <==> text == "Copy Trade ⚡"@,
        command_of(text) == Command::Position <==> text == "Position 📈"@,
        command_of(text) == Command::Help <==> text == "Help"@,
        command_of(text) == Command::Unrecognized <==> {
            &&& text != "/start"@
            &&& text != "Buy 🚀"@
            &&& text != "Copy Trade ⚡"@
            &&& text != "Position 📈"@
            &&& text != "Help"@
        },
{
    law_commands_have_own_texts(text, Command::Start);
    law_commands_have_own_texts(text, Command::Buy);
    law_commands_have_own_texts(text, Command::CopyTrade);
    law_commands_have_own_texts(text, Command::Position);
    law_commands_have_own_texts(text, Command::Help);
}

/// Reads a text as a command.
pub fn parse_command(text: &str) -> (command: Command)
    ensures
        command == command_of(text@),
        command == Command::Start <==> text@ == "/start"@,
        command == Command::Buy <==> text@ == "Buy 🚀"@,
        command == Command::CopyTrade <==> text@ == "Copy Trade ⚡"@,
        command == Command::Position <==> text@ == "Position 📈"@,
        command == Command::Help <==> text@ == "Help"@,
{
    proof {
        law_commands(text@);
    }
    if same_text(text, START_COMMAND) {
        Command::Start
    } else if same_text(text, BUY_BUTTON) {
        Command::Buy
    } else if same_text(text, COPY_TRADE_BUTTON) {
        Command::CopyTrade
    } else if same_text(text, POSITION_BUTTON) {
        Command::Position
    } else if same_text(text, HELP_BUTTON) {
        Command::Help
    } else {
        Command::Unrecognized
    }
}

/// A keyboard that is shown in place of the user's own.
#[derive(Clone, Debug, PartialEq, Eq)]
pub struct Keyboard {
    /// The rows of button labels, from top to bottom.
    pub rows: Vec<Vec<String>>,
    /// Whether the keyboard is shrunk to its buttons.
    pub resize: bool,
    /// Whether the keyboard stays when it is not used.
    pub persistent: bool,
}

/// The labels and settings of a keyboard.
pub struct KeyboardView {
    /// The rows of button labels, from top to bottom.
    pub rows: Seq<Seq<Seq<char>>>,
    /// Whether the keyboard is shrunk to its buttons.
    pub resize: bool,
    /// Whether the keyboard stays when it is not used.
    pub persistent: bool,
}

impl View for Keyboard {
    type V = KeyboardView;

    open spec fn view(&self) -> KeyboardView {
        KeyboardView {
            rows: self.rows.deep_view(),
            resize: self.resize,
            persistent: self.persistent,
        }
    }
}

/// The rows of the menu.
pub open spec fn menu_rows() -> Seq<Seq<Seq<char>>> {
    seq![
        seq![BUY_BUTTON@, SELL_BUTTON@],
        seq![DCA_ORDERS_BUTTON@],
        seq![POSITION_BUTTON@, MY_TRADES_BUTTON@],
        seq![REFERRALS_BUTTON@, COPY_TRADE_BUTTON@],
        seq![WITHDRAW_BUTTON@],
        seq![HELP_BUTTON@, SETTINGS_BUTTON@],
    ]
}

/// The keyboard of the menu.
pub open spec fn menu() -> KeyboardView {
    KeyboardView { rows: menu_rows(), resize: true, persistent: true }
}

/// The menu has six rows of buttons with these labels, fits itself to them, and
/// stays.
pub proof fn law_menu()
    ensures
        menu().rows == seq![
            seq!["Buy 🚀"@, "Sell 🛠️"@],
            seq!["DCA orders"@],
            seq!["Position 📈"@, "My Trades 📊"@],
            seq!["Referrals 💰"@, "Copy Trade ⚡"@],
            seq!["Withdraw"@],
            seq!["Help"@, "Settings ⚙️"@],
        ],
        menu().resize,
        menu().persistent,
{
}

/// The view of a keyboard shows the labels and the settings that it has.
pub proof fn law_keyboard_view(keyboard: Keyboard)
    ensures
        keyboard@.rows.len() == keyboard.rows@.len(),
        forall|i: int|
            0 <= i < keyboard.rows@.len() ==> (#[trigger] keyboard@.rows[i]).len()
                == keyboard.rows@[i]@.len(),
        forall|i: int, j: int|
            0 <= i < keyboard.rows@.len() && 0 <= j < keyboard.rows@[i]@.len() ==> (
            #[trigger] keyboard@.rows[i][j]) == keyboard.rows@[i]@[j]@,
        keyboard@.resize == keyboard.resize,
        keyboard@.persistent == keyboard.persistent,
{
}

/// Makes the keyboard of the menu.
pub fn menu_keyboard() -> (keyboard: Keyboard)
    ensures
        keyboard@ == menu(),
{
    let rows = vec![
        vec![BUY_BUTTON.to_owned(), SELL_BUTTON.to_owned()],
        vec![DCA_ORDERS_BUTTON.to_owned()],
        vec![POSITION_BUTTON.to_owned(), MY_TRADES_BUTTON.to_owned()],
        vec![REFERRALS_BUTTON.to_owned(), COPY_TRADE_BUTTON.to_owned()],
        vec![WITHDRAW_BUTTON.to_owned()],
        vec![HELP_BUTTON.to_owned(), SETTINGS_BUTTON.to_owned()],
    ];
    assert(rows.deep_view() =~~= menu_rows());
    Keyboard { rows, resize: true, persistent: true }
}

/// The welcome text for a balance and an address.
pub open spec fn welcome_text(balance: Seq<char>, pubkey: Seq<char>) -> Seq<char> {
    "<b>Welcome to Axiom trade bot!</b>\n\nIntroducing a cutting-edge bot crafted exclusively for Solana Traders.\n\n<b>Balance:</b> "@
        + balance
        + " SOL\n\nHere's your Solana wallet address linked to your Telegram account. Simply fund your wallet to start trading.\n\n<code>"@
        + pubkey + "</code>"@
}

/// The welcome text shows the balance behind its label and, at its end, the
/// address in a code tag. So it tells any two addresses and any two balances
/// apart.
pub proof fn law_welcome_text(
    balance: Seq<char>,
    pubkey: Seq<char>,
    other_balance: Seq<char>,
    other_pubkey: Seq<char>,
)
    ensures
        welcome_text(balance, pubkey) == "<b>Welcome to Axiom trade bot!</b>\n\nIntroducing a cutting-edge bot crafted exclusively for Solana Traders.\n\n<b>Balance:</b> "@
            + balance
            + " SOL\n\nHere's your Solana wallet address linked to your Telegram account. Simply fund your wallet to start trading.\n\n<code>"@
            + pubkey + "</code>"@,
        exists|head: Seq<char>|
            welcome_text(balance, pubkey) == #[trigger] (head + ("<code>"@ + pubkey + "</code>"@)),
        exists|head: Seq<char>, tail: Seq<char>|
            welcome_text(balance, pubkey) == #[trigger] (head + ("<b>Balance:</b> "@ + balance
                + " SOL"@) + tail),
        welcome_text(balance, pubkey) == welcome_text(balance, other_pubkey) ==> pubkey
            == other_pubkey,
        welcome_text(balance, pubkey) == welcome_text(other_balance, pubkey) ==> balance
            == other_balance,
{
    let head = "<b>Welcome to Axiom trade bot!</b>\n\nIntroducing a cutting-edge bot crafted exclusively for Solana Traders.\n\n<b>Balance:</b> "@;
    let middle = " SOL\n\nHere's your Solana wallet address linked to your Telegram account. Simply fund your wallet to start trading.\n\n<code>"@;
    let text = welcome_text(balance, pubkey);
    let end = "</code>"@;
    reveal_strlit(
        " SOL\n\nHere's your Solana wallet address linked to your Telegram account. Simply fund your wallet to start trading.\n\n<code>",
    );
    reveal_strlit("<code>");
    reveal_strlit(
        "<b>Welcome to Axiom trade bot!</b>\n\nIntroducing a cutting-edge bot crafted exclusively for Solana Traders.\n\n<b>Balance:</b> ",
    );
    reveal_strlit("<b>Balance:</b> ");
    reveal_strlit(" SOL");
    let before = head + balance + middle.take(middle.len() - 6);
    assert(middle.skip(middle.len() - 6) =~= "<code>"@);
    assert(text =~= before + ("<code>"@ + pubkey + end));
    assert(head.skip(head.len() - 16) =~= "<b>Balance:</b> "@);
    assert(middle.take(4) =~= " SOL"@);
    assert(text =~= head.take(head.len() - 16) + ("<b>Balance:</b> "@ + balance + " SOL"@) + (
    middle.skip(4) + pubkey + end));
    lemma_framed_text(head + balance + middle, pubkey, other_pubkey, end);
    assert(text =~= head + balance + (middle + pubkey + end));
    assert(welcome_text(other_balance, pubkey) =~= head + other_balance + (middle + pubkey + end));
    lemma_framed_text(head, balance, other_balance, middle + pubkey + end);
}

/// Writes the welcome text.
pub fn welcome_caption(balance: &str, pubkey: &str) -> (caption: String)
    ensures
        caption@ == welcome_text(balance@, pubkey@),
        caption@ == "<b>Welcome to Axiom trade bot!</b>\n\nIntroducing a cutting-edge bot crafted exclusively for Solana Traders.\n\n<b>Balance:</b> "@
            + balance@
            + " SOL\n\nHere's your Solana wallet address linked to your Telegram account. Simply fund your wallet to start trading.\n\n<code>"@
            + pubkey@ + "</code>"@,
{
    let caption = join(
        "<b>Welcome to Axiom trade bot!</b>\n\nIntroducing a cutting-edge bot crafted exclusively for Solana Traders.\n\n<b>Balance:</b> ",
        balance,
    );
    let caption = join(
        caption.as_str(),
        " SOL\n\nHere's your Solana wallet address linked to your Telegram account. Simply fund your wallet to start trading.\n\n<code>",
    );
    let caption = join(caption.as_str(), pubkey);
    join(caption.as_str(), "</code>")
}

/// The answer to a contract address.
pub open spec fn buy_text(token_address: Seq<char>) -> Seq<char> {
    "✅ Executing buy order for contract: \n<code>"@ + token_address + "</code>"@
}

/// Between one beginning and one end, different texts stay different.
proof fn lemma_framed_text(head: Seq<char>, a: Seq<char>, b: Seq<char>, end: Seq<char>)
    ensures
        head + a + end == head + b + end ==> a == b,
{
    if head + a + end == head + b + end {
        assert((head + a + end).len() == (head + b + end).len());
        assert(a =~= (head + a + end).skip(head.len() as int).take(a.len() as int));
        assert(b =~= (head + b + end).skip(head.len() as int).take(b.len() as int));
    }
}

/// The answer to a contract address announces the order and quotes the address,
/// so that it tells any two addresses apart.
pub proof fn law_buy_text(token_address: Seq<char>, other_address: Seq<char>)
    ensures
        buy_text(token_address) == "✅ Executing buy order for contract: \n<code>"@ + token_address
            + "</code>"@,
        buy_text(token_address) == buy_text(other_address) ==> token_address == other_address,
{
    lemma_framed_text(
        "✅ Executing buy order for contract: \n<code>"@,
        token_address,
        other_address,
        "</code>"@,
    );
}

/// Writes the answer to a contract address.
pub fn buy_answer(token_address: &str) -> (answer: String)
    ensures
        answer@ == buy_text(token_address@),
        answer@ == "✅ Executing buy order for contract: \n<code>"@ + token_address@ + "</code>"@,
{
    let answer = join("✅ Executing buy order for contract: \n<code>", token_address);
    join(answer.as_str(), "</code>")
}

/// The answer to a wallet address that is now being copied.
pub open spec fn subscribed_text(target_wallet: Seq<char>) -> Seq<char> {
    "⚡ Successfully subscribed! Now copy trading wallet: \n<code>"@ + target_wallet
        + "</code>\n\nYou will receive a notification when a swap executes."@
}

/// The answer to a wallet address that is now being copied quotes the address,
/// so that it tells any two addresses apart.
pub proof fn law_subscribed_text(target_wallet: Seq<char>, other_wallet: Seq<char>)
    ensures
        subscribed_text(target_wallet)
            == "⚡ Successfully subscribed! Now copy trading wallet: \n<code>"@ + target_wallet
            + "</code>\n\nYou will receive a notification when a swap executes."@,
        subscribed_text(target_wallet) == subscribed_text(other_wallet) ==> target_wallet
            == other_wallet,
{
    lemma_framed_text(
        "⚡ Successfully subscribed! Now copy trading wallet: \n<code>"@,
        target_wallet,
        other_wallet,
        "</code>\n\nYou will receive a notification when a swap executes."@,
    );
}

/// Writes the answer to a wallet address that is now being copied.
pub fn subscribed_answer(target_wallet: &str) -> (answer: String)
    ensures
        answer@ == subscribed_text(target_wallet@),
        answer@ == "⚡ Successfully subscribed! Now copy trading wallet: \n<code>"@
            + target_wallet@ + "</code>\n\nYou will receive a notification when a swap executes."@,
{
    let answer = join(
        "⚡ Successfully subscribed! Now copy trading wallet: \n<code>",
        target_wallet,
    );
    join(answer.as_str(), "</code>\n\nYou will receive a notification when a swap executes.")
}

} // verus!
