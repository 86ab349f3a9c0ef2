use vstd::prelude::*;
use vstd::string::StrSliceExecFns;
use crate::commands::embed::{EmbedColor, EmbedContent, EmbedField, EmbedView, FieldView, embed_field, field_view};
use crate::utils::number_utils::{get_unicode_from_number, keycap};
use crate::utils::text::{contains_id, decimal, join_strings, push_char, seq_join, string_views, u64_to_decimal};

verus! {

/// What a chug command with this many arguments starts: a check for one
/// game, a poll among up to nine games, or nothing.
#[derive(Debug, Clone, Copy, PartialEq, Eq, Structural)]
pub enum ChugKind {
    SingleGame,
    MultipleGames,
    NoCheck,
}

pub open spec fn chug_kind_spec(arg_count: nat) -> ChugKind {
    if arg_count == 1 {
        ChugKind::SingleGame
    } else if 1 < arg_count < 10 {
        ChugKind::MultipleGames
    } else {
        ChugKind::NoCheck
    }
}

/// One game starts a check for it, two to nine games a poll among them,
/// and no game or ten and more start nothing.
pub proof fn lemma_chug_kind_by_count(arg_count: nat)
    ensures
        (chug_kind_spec(arg_count) == ChugKind::SingleGame) <==> arg_count == 1,
        (chug_kind_spec(arg_count) == ChugKind::MultipleGames) <==> (2 <= arg_count
            && arg_count <= 9),
        (chug_kind_spec(arg_count) == ChugKind::NoCheck) <==> (arg_count == 0 || arg_count
            >= 10),
{
}

pub fn chug_kind(arg_count: usize) -> (r: ChugKind)
    ensures
        r == chug_kind_spec(arg_count as nat),
        arg_count == 1 ==> r == ChugKind::SingleGame,
        2 <= arg_count <= 9 ==> r == ChugKind::MultipleGames,
        (arg_count == 0 || arg_count >= 10) ==> r == ChugKind::NoCheck,
{
    if arg_count == 1 {
        ChugKind::SingleGame
    } else if arg_count > 1 && arg_count < 10 {
        ChugKind::MultipleGames
    } else {
        ChugKind::NoCheck
    }
}

/// The longest duration, in minutes, whose length in seconds fits in a `u64`.
pub const MAX_DURATION_MINUTES: u64 = 307445734561825860;

pub open spec fn is_digit(c: char) -> bool {
    '0' <= c <= '9'
}

/// The number that a string of decimal digits writes.
pub open spec fn digits_value(s: Seq<char>) -> nat
    decreases s.len(),
{
    if s.len() == 0 {
        0
    } else {
        digits_value(s.drop_last()) * 10 + (s.last() as nat - '0' as nat) as nat
    }
}

/// A duration: a non-empty run of decimal digits, a number of minutes
/// whose length in seconds fits in a `u64`.
pub open spec fn is_duration(s: Seq<char>) -> bool {
    &&& s.len() > 0
    &&& forall|i: int| 0 <= i < s.len() ==> is_digit(#[trigger] s[i])
    &&& digits_value(s) <= MAX_DURATION_MINUTES
}

/// The argument `a` is a duration, a space at `k`, and a game after it.
pub open spec fn duration_then_game(a: Seq<char>, k: int) -> bool {
    0 < k && k + 1 < a.len() && a[k] == ' ' && is_duration(a.take(k))
}

/// The duration and the games of a chug command. A duration, in minutes,
/// may come first: as an argument of its own when games follow it
/// (`/chug {duration}, {game 1}, ...`), or before a space at the start of
/// the first argument (`/chug {duration} {game}`). Every other argument,
/// and the rest of the first one after that space, is a game.
pub open spec fn parse_chug_args_spec(args: Seq<Seq<char>>) -> (Option<nat>, Seq<Seq<char>>) {
    if args.len() >= 2 && is_duration(args[0]) {
        (Some(digits_value(args[0]) * 60), args.drop_first())
    } else if args.len() >= 1 && exists|k: int| duration_then_game(args[0], k) {
        let k = choose|k: int| duration_then_game(args[0], k);
        (Some(digits_value(args[0].take(k)) * 60), seq![args[0].skip(k + 1)] + args.drop_first())
    } else {
        (None, args)
    }
}

/// The duration of a chug check in seconds, if one was given, and its games.
#[derive(Debug)]
pub struct ChugArgs {
    pub duration_seconds: Option<u64>,
    pub games: Vec<String>,
}

/// The leading digits of `a`: how many there are, and the value they
/// write while it does not pass `MAX_DURATION_MINUTES`.
fn leading_digits(a: &String) -> (r: (usize, Option<u64>))
    ensures
        r.0 <= a@.len(),
        forall|i: int| 0 <= i < r.0 ==> is_digit(#[trigger] a@[i]),
        r.0 < a@.len() ==> !is_digit(a@[r.0 as int]),
        match r.1 {
            Some(v) => v == digits_value(a@.take(r.0 as int)) && v <= MAX_DURATION_MINUTES,
            None => digits_value(a@.take(r.0 as int)) > MAX_DURATION_MINUTES,
        },
{
    let n = a.as_str().unicode_len();
    let mut i: usize = 0;
    let mut value: Option<u64> = Some(0);
    proof {
        assert(a@.take(0) =~= Seq::<char>::empty());
    }
    while i < n
        invariant
            n == a@.len(),
            i <= n,
            forall|j: int| 0 <= j < i ==> is_digit(#[trigger] a@[j]),
            match value {
                Some(v) => v == digits_value(a@.take(i as int)) && v <= MAX_DURATION_MINUTES,
                None => digits_value(a@.take(i as int)) > MAX_DURATION_MINUTES,
            },
        ensures
            i < n ==> !is_digit(a@[i as int]),
        decreases n - i,
    {
        let c = a.as_str().get_char(i);
        if !('0' <= c && c <= '9') {
            break;
        }
        let d: u64 = (c as u32 - 48u32) as u64;
        proof {
            assert(a@.take(i + 1).drop_last() =~= a@.take(i as int));
            assert(a@.take(i + 1).last() == c);
            assert(digits_value(a@.take(i + 1)) == digits_value(a@.take(i as int)) * 10 + d);
        }
        value = match value {
            Some(v) => {
                if v > (MAX_DURATION_MINUTES - d) / 10 {
                    proof {
                        assert(v * 10 + d > MAX_DURATION_MINUTES) by (nonlinear_arith)
                            requires
                                v > (MAX_DURATION_MINUTES - d) / 10,
                                d < 10,
                        ;
                    }
                    None
                } else {
                    proof {
                        assert(v * 10 + d <= MAX_DURATION_MINUTES) by (nonlinear_arith)
                            requires
                                v <= (MAX_DURATION_MINUTES - d) / 10,
                                d < 10,
                        ;
                    }
                    Some(v * 10 + d)
                }
            },
            None => None,
        };
        i = i + 1;
    }
    (i, value)
}

/// Two splits of an argument into a duration, a space and a game are the
/// same split.
proof fn lemma_duration_split_unique(a: Seq<char>, k: int, m: int)
    requires
        duration_then_game(a, k),
        duration_then_game(a, m),
    ensures
        k == m,
{
    if k < m {
        assert(a.take(m)[k] == a[k]);
        assert(is_digit(a.take(m)[k]));
    } else if m < k {
        assert(a.take(k)[m] == a[m]);
        assert(is_digit(a.take(k)[m]));
    }
}

/// The strings from position `from` on, cloned.
fn clone_from(items: &Vec<String>, from: usize) -> (r: Vec<String>)
    requires
        from <= items@.len(),
    ensures
        string_views(r@) == string_views(items@).skip(from as int),
{
    let mut r: Vec<String> = Vec::new();
    let n = items.len();
    let mut i: usize = from;
    while i < n
        invariant
            n == items@.len(),
            from <= i <= n,
            string_views(r@) == string_views(items@).subrange(from as int, i as int),
        decreases n - i,
    {
        let ghost prev = r@;
        r.push(items[i].clone());
        proof {
            assert(r@ == prev.push(items@[i as int]));
            assert(string_views(r@) =~= string_views(prev).push(items@[i as int]@));
            assert(string_views(items@).subrange(from as int, i + 1) =~= string_views(
                items@,
            ).subrange(from as int, i as int).push(items@[i as int]@));
        }
        i = i + 1;
    }
    proof {
        assert(string_views(items@).subrange(from as int, n as int) =~= string_views(items@).skip(
            from as int,
        ));
    }
    r
}

/// Splits the arguments of a chug command into its duration, in seconds,
/// and its games.
pub fn parse_chug_args(args: &Vec<String>) -> (r: ChugArgs)
    ensures
        ({
            let (minutes, games) = parse_chug_args_spec(string_views(args@));
            &&& match minutes {
                Some(m) => r.duration_seconds == Some(m as u64) && m <= u64::MAX,
                None => r.duration_seconds is None,
            }
            &&& string_views(r.games@) == games
        }),
{
    let ghost views = string_views(args@);
    if args.len() == 0 {
        return ChugArgs { duration_seconds: None, games: Vec::new() };
    }
    let first = &args[0];
    assert(views[0] == first@);
    let n = first.as_str().unicode_len();
    let (k, value) = leading_digits(first);
    match value {
        Some(minutes) => {
            if k == n && k > 0 && args.len() >= 2 {
                assert(first@.take(k as int) =~= first@);
                assert(is_duration(views[0]));
                let games = clone_from(args, 1);
                proof {
                    assert(string_views(args@).skip(1) =~= views.drop_first());
                }
                return ChugArgs { duration_seconds: Some(minutes * 60), games };
            }
            if k > 0 && k < n && n - k > 1 && first.as_str().get_char(k) == ' ' {
                proof {
                    assert(forall|i: int|
                        0 <= i < k ==> #[trigger] first@.take(k as int)[i] == first@[i]);
                    assert(duration_then_game(views[0], k as int));
                    if args.len() >= 2 && is_duration(views[0]) {
                        assert(is_digit(views[0][k as int]));
                    }
                    let c = choose|c: int| duration_then_game(views[0], c);
                    lemma_duration_split_unique(views[0], k as int, c);
                }
                let rest = first.as_str().substring_char(k + 1, n);
                let mut games: Vec<String> = Vec::new();
                games.push(String::from_str(rest));
                let mut others = clone_from(args, 1);
                games.append(&mut others);
                proof {
                    assert(string_views(games@) =~= seq![views[0].skip(k + 1)] + views.drop_first());
                }
                return ChugArgs { duration_seconds: Some(minutes * 60), games };
            }
        },
        None => {},
    }
    proof {
        // No duration: neither form applies.
        if args.len() >= 2 && is_duration(views[0]) {
            assert(first@.take(k as int) =~= first@) by {
                if k < n {
                    assert(!is_digit(first@[k as int]));
                    assert(is_digit(views[0][k as int]));
                }
            }
        }
        if exists|c: int| duration_then_game(views[0], c) {
            let c = choose|c: int| duration_then_game(views[0], c);
            assert(forall|i: int| 0 <= i < c ==> #[trigger] views[0].take(c)[i] == views[0][i]);
            if c < k {
                assert(is_digit(first@[c]));
            } else if k < c {
                assert(is_digit(views[0].take(c)[k as int]));
            } else {
                assert(first@.take(k as int) =~= views[0].take(c));
            }
        }
    }
    let games = clone_from(args, 0);
    proof {
        assert(string_views(args@).skip(0) =~= views);
    }
    ChugArgs { duration_seconds: None, games }
}

/// How long a check collects reactions: the duration given, or the
/// default.
pub fn chug_timeout(duration_seconds: Option<u64>, default_seconds: u64) -> (r: u64)
    ensures
        r == match duration_seconds {
            Some(d) => d,
            None => default_seconds,
        },
{
    match duration_seconds {
        Some(d) => d,
        None => default_seconds,
    }
}

/// A user who reacted to a chug check.
#[derive(Debug, Clone, Copy, PartialEq, Eq, Structural)]
pub struct ReactingUser {
    pub id: u64,
    pub bot: bool,
}

/// How a user is mentioned in a message: `<@{id}>`.
pub open spec fn user_mention(id: u64) -> Seq<char> {
    seq!['<', '@'] + decimal(id as nat) + seq!['>']
}

pub fn mention_text(id: u64) -> (r: String)
    ensures
        r@ == user_mention(id),
{
    proof {
        reveal_strlit("<@");
        reveal_strlit(">");
    }
    let mut r = String::from_str("<@");
    let digits = u64_to_decimal(id);
    r.append(digits.as_str());
    r.append(">");
    r
}

/// The ids of the users who are not bots, each once, in the order of
/// their first reaction.
pub open spec fn chugster_ids(users: Seq<ReactingUser>) -> Seq<u64>
    decreases users.len(),
{
    if users.len() == 0 {
        Seq::empty()
    } else {
        let before = chugster_ids(users.drop_last());
        let u = users.last();
        if u.bot || before.contains(u.id) {
            before
        } else {
            before.push(u.id)
        }
    }
}

/// The chugsters of a check are the users who reacted and are not bots,
/// each listed once.
pub proof fn lemma_chugster_ids(users: Seq<ReactingUser>)
    ensures
        forall|i: int|
            0 <= i < chugster_ids(users).len() ==> exists|j: int|
                0 <= j < users.len() && !users[j].bot && users[j].id == #[trigger] chugster_ids(
                    users,
                )[i],
        forall|i: int, k: int|
            0 <= i < k < chugster_ids(users).len() ==> chugster_ids(users)[i] != chugster_ids(
                users,
            )[k],
        forall|j: int|
            0 <= j < users.len() && !users[j].bot ==> chugster_ids(users).contains(
                #[trigger] users[j].id,
            ),
    decreases users.len(),
{
    if users.len() > 0 {
        let prefix = users.drop_last();
        lemma_chugster_ids(prefix);
        let before = chugster_ids(prefix);
        let u = users.last();
        assert forall|i: int|
            0 <= i < chugster_ids(users).len() implies exists|j: int|
                0 <= j < users.len() && !users[j].bot && users[j].id == #[trigger] chugster_ids(
                    users,
                )[i] by {
            if i < before.len() {
                let j = choose|j: int|
                    0 <= j < prefix.len() && !prefix[j].bot && prefix[j].id == before[i];
                assert(users[j] == prefix[j]);
            } else {
                assert(users[users.len() - 1] == u);
            }
        }
        assert forall|j: int|
            0 <= j < users.len() && !users[j].bot implies chugster_ids(users).contains(
                #[trigger] users[j].id,
            ) by {
            if j < prefix.len() {
                assert(prefix[j] == users[j]);
                assert(before.contains(prefix[j].id));
                let k = choose|k: int| 0 <= k < before.len() && before[k] == prefix[j].id;
                if !(u.bot || before.contains(u.id)) {
                    assert(before.push(u.id)[k] == before[k]);
                }
            } else {
                if !before.contains(u.id) {
                    assert(before.push(u.id)[before.len() as int] == u.id);
                }
            }
        }
    }
}

pub const CHUGSTER_SEPARATOR: &'static str = ", ";

/// The list of chugsters shown on a check: the mentions of the users who
/// reacted, without bots and without repeats, separated by commas.
pub open spec fn chugsters_spec(users: Seq<ReactingUser>) -> Seq<char> {
    seq_join(chugster_ids(users).map_values(|id: u64| user_mention(id)), CHUGSTER_SEPARATOR@)
}

/// The ids of the users who are not bots, each once, in order.
pub fn chugster_id_list(users: &Vec<ReactingUser>) -> (r: Vec<u64>)
    ensures
        r@ == chugster_ids(users@),
{
    let mut r: Vec<u64> = Vec::new();
    let n = users.len();
    let mut i: usize = 0;
    while i < n
        invariant
            n == users.len(),
            i <= n,
            r@ == chugster_ids(users@.take(i as int)),
        decreases n - i,
    {
        let u = users[i];
        proof {
            assert(users@.take(i + 1).drop_last() =~= users@.take(i as int));
        }
        if !u.bot && !contains_id(&r, u.id) {
            r.push(u.id);
        }
        i = i + 1;
    }
    proof {
        assert(users@.take(n as int) =~= users@);
    }
    r
}

pub fn chugsters_string(users: &Vec<ReactingUser>) -> (r: String)
    ensures
        r@ == chugsters_spec(users@),
{
    let ids = chugster_id_list(users);
    let mut mentions: Vec<String> = Vec::new();
    let n = ids.len();
    let mut i: usize = 0;
    while i < n
        invariant
            n == ids.len(),
            i <= n,
            mentions@.len() == i,
            forall|j: int| 0 <= j < i ==> #[trigger] mentions@[j]@ == user_mention(ids@[j]),
        decreases n - i,
    {
        mentions.push(mention_text(ids[i]));
        i = i + 1;
    }
    proof {
        assert(string_views(mentions@) =~= ids@.map_values(|id: u64| user_mention(id)));
    }
    join_strings(&mentions, CHUGSTER_SEPARATOR)
}

/// The line of the poll for game number `number` (from one).
pub open spec fn poll_line(number: nat, game: Seq<char>) -> Seq<char> {
    keycap(number) + seq![' '] + game
}

/// The games of a poll, one per line, each after the keycap of its number.
pub open spec fn poll_options_spec(games: Seq<Seq<char>>) -> Seq<char> {
    seq_join(Seq::new(games.len(), |i: int| poll_line((i + 1) as nat, games[i])), seq!['\n'])
}

pub fn poll_options(games: &Vec<String>) -> (r: String)
    requires
        games@.len() <= 9,
    ensures
        r@ == poll_options_spec(string_views(games@)),
{
    let mut lines: Vec<String> = Vec::new();
    let n = games.len();
    let mut i: usize = 0;
    while i < n
        invariant
            n == games.len(),
            n <= 9,
            i <= n,
            lines@.len() == i,
            forall|j: int|
                0 <= j < i ==> #[trigger] lines@[j]@ == poll_line((j + 1) as nat, games@[j]@),
        decreases n - i,
    {
        let mut line = get_unicode_from_number(i + 1).unwrap();
        line.append(" ");
        proof {
            reveal_strlit(" ");
        }
        line.append(games[i].as_str());
        lines.push(line);
        i = i + 1;
    }
    proof {
        reveal_strlit("\n");
        assert("\n"@ =~= seq!['\n']);
        assert(string_views(lines@) =~= Seq::new(
            string_views(games@).len(),
            |i: int| poll_line((i + 1) as nat, string_views(games@)[i]),
        ));
    }
    join_strings(&lines, "\n")
}

pub const SINGLE_TITLE_START: &'static str = "Chug Check started for \"";

pub const SINGLE_TITLE_END: &'static str = "\"";

pub const SINGLE_DESCRIPTION_GAME: &'static str = " has started a chug check for \"";

pub const SINGLE_DESCRIPTION_EMOTE: &'static str = "\". React with a ";

pub const SINGLE_DESCRIPTION_END: &'static str = " if you're ready!";

pub const GAME_FIELD: &'static str = "Game";

pub const CHUGSTERS_FIELD: &'static str = "Chugsters";

pub const MULTI_TITLE: &'static str = "Chug Check started for multiple games!";

pub const MULTI_DESCRIPTION: &'static str = " has started a chug check for multiple games. React with the emoji next to the game you want to play! ";

pub const GAMES_FIELD: &'static str = "Games";

pub const GAME_CHUGSTERS_SUFFIX: &'static str = " Chugsters";

/// The embed of a check for one game, with its list of chugsters.
pub open spec fn single_view(
    game: Seq<char>,
    author: Seq<char>,
    emote: Seq<char>,
    thumbnail: Seq<char>,
    chugsters: Seq<char>,
) -> EmbedView {
    EmbedView {
        title: SINGLE_TITLE_START@ + game + SINGLE_TITLE_END@,
        description: author + SINGLE_DESCRIPTION_GAME@ + game + SINGLE_DESCRIPTION_EMOTE@ + emote
            + SINGLE_DESCRIPTION_END@,
        color: EmbedColor::DarkPurple,
        thumbnail: Some(thumbnail),
        fields: seq![
            field_view(GAME_FIELD@, game, false),
            field_view(CHUGSTERS_FIELD@, chugsters, false),
        ],
    }
}

/// The field of a poll that lists who wants to play game number `i`.
pub open spec fn game_chugsters_field(game: Seq<char>, chugsters: Seq<char>) -> FieldView {
    field_view(game + GAME_CHUGSTERS_SUFFIX@, chugsters, true)
}

/// The embed of a poll among several games: the numbered games, then one
/// field per game with the chugsters who picked it.
pub open spec fn multi_view(
    games: Seq<Seq<char>>,
    author: Seq<char>,
    emote: Seq<char>,
    thumbnail: Seq<char>,
    chugsters: Seq<Seq<char>>,
) -> EmbedView {
    EmbedView {
        title: MULTI_TITLE@,
        description: author + MULTI_DESCRIPTION@ + emote,
        color: EmbedColor::DarkPurple,
        thumbnail: Some(thumbnail),
        fields: seq![field_view(GAMES_FIELD@, poll_options_spec(games), false)] + Seq::new(
            games.len(),
            |i: int| game_chugsters_field(games[i], chugsters[i]),
        ),
    }
}

/// Before anyone reacts, a check shows what it shows when every followed
/// reaction has only been withdrawn: empty chugster lists.
pub proof fn lemma_nobody_reacted_is_initial(check: ChugCheck, n: nat)
    ensures
        check.view_with(Seq::new(n, |i: int| chugsters_spec(Seq::<ReactingUser>::empty())))
            == check.view_with(Seq::new(n, |i: int| Seq::<char>::empty())),
{
    assert(chugster_ids(Seq::<ReactingUser>::empty()) =~= Seq::<u64>::empty());
    assert(chugster_ids(Seq::<ReactingUser>::empty()).map_values(|id: u64| user_mention(id)) =~= Seq::<Seq<char>>::empty());
    assert(chugsters_spec(Seq::<ReactingUser>::empty()) =~= Seq::<char>::empty());
    assert(Seq::new(n, |i: int| chugsters_spec(Seq::<ReactingUser>::empty())) =~= Seq::new(
        n,
        |i: int| Seq::<char>::empty(),
    ));
}

/// The reaction whose users a check follows: the server's chug emote on a
/// check for one game, the keycap of each game's number on a poll.
#[derive(Debug, PartialEq, Eq)]
pub enum WatchedReaction {
    ChugEmote,
    Keycap(String),
}

/// A running chug check: the games, who started it (by id, and as a
/// mention), the chug emote (as it is written in a message) and the
/// thumbnail.
#[derive(Debug)]
pub struct ChugCheck {
    pub kind: ChugKind,
    pub games: Vec<String>,
    pub author_id: u64,
    pub author: String,
    pub emote: String,
    pub thumbnail: String,
}

/// A reaction with which the user who started a check steers it.
#[derive(Debug, Clone, Copy, PartialEq, Eq, Structural)]
pub enum ChugControl {
    /// End the check early.
    Cancel,
    /// Mention every chugster, to call them to play.
    Alert,
}

/// The emoji of a control reaction: a cross mark to cancel, a loudspeaker
/// to alert.
pub open spec fn control_emoji_spec(control: ChugControl) -> Seq<char> {
    match control {
        ChugControl::Cancel => seq!['\u{274C}'],
        ChugControl::Alert => seq!['\u{1F4E2}'],
    }
}

pub fn control_emoji(control: ChugControl) -> (r: String)
    ensures
        r@ == control_emoji_spec(control),
{
    let mut r = String::new();
    match control {
        ChugControl::Cancel => push_char(&mut r, '\u{274C}'),
        ChugControl::Alert => push_char(&mut r, '\u{1F4E2}'),
    }
    r
}

/// The control reactions that the bot adds to a check, after the
/// reactions it follows: cancel, then alert.
pub fn control_reactions() -> (r: Vec<ChugControl>)
    ensures
        r@ == seq![ChugControl::Cancel, ChugControl::Alert],
{
    let mut r: Vec<ChugControl> = Vec::new();
    r.push(ChugControl::Cancel);
    r.push(ChugControl::Alert);
    r
}

/// Something that happened to the message of a chug check.
#[derive(Debug)]
pub enum ChugEvent {
    /// A followed reaction was added or removed; the users of each
    /// followed reaction, in the order of `watched_reactions`.
    ReactionsChanged(Vec<Vec<ReactingUser>>),
    /// The user `user_id` added a control reaction; `users` are the users
    /// of each followed reaction at that moment.
    ControlAdded { control: ChugControl, user_id: u64, users: Vec<Vec<ReactingUser>> },
    /// Any other event.
    Other,
}

/// What the bot does on an event of a chug check.
#[derive(Debug)]
pub enum ChugAction {
    /// Replace the check's embed.
    Edit(EmbedContent),
    /// Stop the check now.
    Cancel,
    /// Post this message, which mentions every chugster.
    Alert(String),
    /// Nothing but a note in the log.
    Ignore,
}

/// The users of all followed reactions, one reaction after the other.
pub open spec fn concat_lists(lists: Seq<Seq<ReactingUser>>) -> Seq<ReactingUser>
    decreases lists.len(),
{
    if lists.len() == 0 {
        Seq::empty()
    } else {
        concat_lists(lists.drop_last()) + lists.last()
    }
}

pub open spec fn lists_view(lists: Seq<Vec<ReactingUser>>) -> Seq<Seq<ReactingUser>> {
    lists.map_values(|l: Vec<ReactingUser>| l@)
}

pub const ALERT_PREFIX: &'static str = "Chug time! ";

/// The alert: the mentions of everyone who reacted to any followed
/// reaction and is not a bot, each once, after a call to play.
pub open spec fn alert_text_spec(lists: Seq<Seq<ReactingUser>>) -> Seq<char> {
    ALERT_PREFIX@ + chugsters_spec(concat_lists(lists))
}

/// All users of the followed reactions, in order.
pub fn all_reacting_users(lists: &Vec<Vec<ReactingUser>>) -> (r: Vec<ReactingUser>)
    ensures
        r@ == concat_lists(lists_view(lists@)),
{
    let ghost views = lists_view(lists@);
    let mut r: Vec<ReactingUser> = Vec::new();
    let n = lists.len();
    let mut i: usize = 0;
    while i < n
        invariant
            n == lists.len(),
            i <= n,
            views == lists_view(lists@),
            r@ == concat_lists(views.take(i as int)),
        decreases n - i,
    {
        let list = &lists[i];
        let ghost before = r@;
        let m = list.len();
        let mut j: usize = 0;
        while j < m
            invariant
                m == list@.len(),
                j <= m,
                r@ == before + list@.take(j as int),
            decreases m - j,
        {
            r.push(list[j]);
            proof {
                assert(list@.take(j + 1) =~= list@.take(j as int).push(list@[j as int]));
            }
            j = j + 1;
        }
        proof {
            assert(list@.take(m as int) =~= list@);
            assert(views.take(i + 1).drop_last() =~= views.take(i as int));
            assert(views.take(i + 1).last() == list@);
        }
        i = i + 1;
    }
    proof {
        assert(views.take(n as int) =~= views);
    }
    r
}

impl ChugCheck {
    /// A check for one game, or a poll among two to nine games.
    pub open spec fn well_formed(&self) -> bool {
        match self.kind {
            ChugKind::SingleGame => self.games@.len() == 1,
            ChugKind::MultipleGames => 2 <= self.games@.len() <= 9,
            ChugKind::NoCheck => false,
        }
    }

    /// The number of reactions the check follows.
    pub open spec fn watched_count(&self) -> nat {
        match self.kind {
            ChugKind::SingleGame => 1,
            _ => self.games@.len(),
        }
    }

    /// The check's embed with the given chugster lists.
    pub open spec fn view_with(&self, chugsters: Seq<Seq<char>>) -> EmbedView {
        match self.kind {
            ChugKind::SingleGame => single_view(
                self.games@[0]@,
                self.author@,
                self.emote@,
                self.thumbnail@,
                chugsters[0],
            ),
            _ => multi_view(
                string_views(self.games@),
                self.author@,
                self.emote@,
                self.thumbnail@,
                chugsters,
            ),
        }
    }

    /// A check for one game, with the game's cover as thumbnail.
    pub fn new_single(game: String, author_id: u64, emote: String, cover_url: String) -> (r: Self)
        ensures
            r.well_formed(),
            r.kind == ChugKind::SingleGame,
            r.games@ == seq![game],
            r.author_id == author_id,
            r.author@ == user_mention(author_id),
            r.emote == emote,
            r.thumbnail == cover_url,
    {
        let mut games: Vec<String> = Vec::new();
        games.push(game);
        let author = mention_text(author_id);
        ChugCheck { kind: ChugKind::SingleGame, games, author_id, author, emote, thumbnail: cover_url }
    }

    /// A poll among two to nine games, with the poll image as thumbnail.
    pub fn new_poll(games: Vec<String>, author_id: u64, emote: String, poll_image: String) -> (r: Self)
        requires
            2 <= games@.len() <= 9,
        ensures
            r.well_formed(),
            r.kind == ChugKind::MultipleGames,
            r.games == games,
            r.author_id == author_id,
            r.author@ == user_mention(author_id),
            r.emote == emote,
            r.thumbnail == poll_image,
    {
        let author = mention_text(author_id);
        ChugCheck { kind: ChugKind::MultipleGames, games, author_id, author, emote, thumbnail: poll_image }
    }

    /// The reactions that the check follows, and that the bot adds to its
    /// message: the chug emote, or the keycaps one to the number of games.
    pub fn watched_reactions(&self) -> (r: Vec<WatchedReaction>)
        requires
            self.well_formed(),
        ensures
            r@.len() == self.watched_count(),
            self.kind == ChugKind::SingleGame ==> r@[0] == WatchedReaction::ChugEmote,
            self.kind == ChugKind::MultipleGames ==> forall|i: int|
                0 <= i < r@.len() ==> (#[trigger] r@[i] matches WatchedReaction::Keycap(k) && k@
                    == keycap((i + 1) as nat)),
    {
        let mut r: Vec<WatchedReaction> = Vec::new();
        match self.kind {
            ChugKind::SingleGame => {
                r.push(WatchedReaction::ChugEmote);
            },
            _ => {
                let n = self.games.len();
                let mut i: usize = 0;
                while i < n
                    invariant
                        n == self.games@.len(),
                        n <= 9,
                        i <= n,
                        r@.len() == i,
                        forall|j: int|
                            0 <= j < i ==> (#[trigger] r@[j] matches WatchedReaction::Keycap(k)
                                && k@ == keycap((j + 1) as nat)),
                    decreases n - i,
                {
                    r.push(WatchedReaction::Keycap(get_unicode_from_number(i + 1).unwrap()));
                    i = i + 1;
                }
            },
        }
        r
    }

    /// The check's embed with the given chugster lists, one per followed
    /// reaction.
    pub fn embed_with(&self, chugsters: Vec<String>) -> (r: EmbedContent)
        requires
            self.well_formed(),
            chugsters@.len() == self.watched_count(),
        ensures
            r@ == self.view_with(string_views(chugsters@)),
    {
        let ghost given = string_views(chugsters@);
        let mut chugsters = chugsters;
        match self.kind {
            ChugKind::SingleGame => {
                let game = &self.games[0];
                let list = chugsters.pop().unwrap();
                let mut title = String::from_str(SINGLE_TITLE_START);
                title.append(game.as_str());
                title.append(SINGLE_TITLE_END);
                let mut description = self.author.clone();
                description.append(SINGLE_DESCRIPTION_GAME);
                description.append(game.as_str());
                description.append(SINGLE_DESCRIPTION_EMOTE);
                description.append(self.emote.as_str());
                description.append(SINGLE_DESCRIPTION_END);
                let mut fields: Vec<EmbedField> = Vec::new();
                fields.push(embed_field(String::from_str(GAME_FIELD), game.clone(), false));
                fields.push(embed_field(String::from_str(CHUGSTERS_FIELD), list, false));
                let r = EmbedContent {
                    title,
                    description,
                    color: EmbedColor::DarkPurple,
                    thumbnail: Some(self.thumbnail.clone()),
                    fields,
                };
                proof {
                    assert(r@.fields =~= self.view_with(given).fields);
                }
                r
            },
            _ => {
                let ghost lists = string_views(chugsters@);
                let mut description = self.author.clone();
                description.append(MULTI_DESCRIPTION);
                description.append(self.emote.as_str());
                let mut fields: Vec<EmbedField> = Vec::new();
                fields.push(
                    embed_field(String::from_str(GAMES_FIELD), poll_options(&self.games), false),
                );
                let n = self.games.len();
                let mut i: usize = 0;
                while i < n
                    invariant
                        n == self.games@.len(),
                        i <= n,
                        chugsters@.len() == n,
                        string_views(chugsters@) == lists,
                        fields@.len() == i + 1,
                        fields@[0]@ == field_view(
                            GAMES_FIELD@,
                            poll_options_spec(string_views(self.games@)),
                            false,
                        ),
                        forall|j: int|
                            0 <= j < i ==> #[trigger] fields@[j + 1]@ == game_chugsters_field(
                                self.games@[j]@,
                                lists[j],
                            ),
                    decreases n - i,
                {
                    let mut name = self.games[i].clone();
                    name.append(GAME_CHUGSTERS_SUFFIX);
                    fields.push(embed_field(name, chugsters[i].clone(), true));
                    i = i + 1;
                }
                let r = EmbedContent {
                    title: String::from_str(MULTI_TITLE),
                    description,
                    color: EmbedColor::DarkPurple,
                    thumbnail: Some(self.thumbnail.clone()),
                    fields,
                };
                proof {
                    let want = self.view_with(lists);
                    assert forall|j: int| 0 <= j < r@.fields.len() implies r@.fields[j]
                        == want.fields[j] by {
                        if j > 0 {
                            assert(fields@[(j - 1) + 1]@ == game_chugsters_field(
                                self.games@[j - 1]@,
                                lists[j - 1],
                            ));
                        }
                    }
                    assert(r@.fields =~= want.fields);
                }
                r
            },
        }
    }

    /// The embed that the check starts with: nobody has reacted yet.
    pub fn initial_embed(&self) -> (r: EmbedContent)
        requires
            self.well_formed(),
        ensures
            r@ == self.view_with(Seq::new(self.watched_count(), |i: int| Seq::<char>::empty())),
    {
        let n = match self.kind {
            ChugKind::SingleGame => 1,
            _ => self.games.len(),
        };
        let mut empty: Vec<String> = Vec::new();
        let mut i: usize = 0;
        while i < n
            invariant
                n == self.watched_count(),
                i <= n,
                empty@.len() == i,
                forall|j: int| 0 <= j < i ==> #[trigger] empty@[j]@ == Seq::<char>::empty(),
            decreases n - i,
        {
            empty.push(String::new());
            i = i + 1;
        }
        proof {
            assert(string_views(empty@) =~= Seq::new(n as nat, |i: int| Seq::<char>::empty()));
        }
        self.embed_with(empty)
    }

    /// What the bot does on an event: on a change of reactions it shows
    /// the chugsters of each followed reaction. A control reaction added by
    /// the user who started the check cancels it, or alerts the chugsters
    /// when there are any; control reactions of others, and other events,
    /// are ignored.
    pub fn handle_event(&self, event: ChugEvent) -> (r: ChugAction)
        requires
            self.well_formed(),
            event matches ChugEvent::ReactionsChanged(users) ==> users@.len()
                == self.watched_count(),
        ensures
            match event {
                ChugEvent::ReactionsChanged(users) => r matches ChugAction::Edit(embed) && embed@
                    == self.view_with(
                    Seq::new(users@.len(), |i: int| chugsters_spec(users@[i]@)),
                ),
                ChugEvent::ControlAdded { control, user_id, users } => if user_id != self.author_id {
                    r is Ignore
                } else if control == ChugControl::Cancel {
                    r is Cancel
                } else if chugster_ids(concat_lists(lists_view(users@))).len() == 0 {
                    r is Ignore
                } else {
                    r matches ChugAction::Alert(text) && text@ == alert_text_spec(lists_view(users@))
                },
                ChugEvent::Other => r is Ignore,
            },
    {
        match event {
            ChugEvent::ReactionsChanged(users) => {
                let mut lists: Vec<String> = Vec::new();
                let n = users.len();
                let mut i: usize = 0;
                while i < n
                    invariant
                        n == users@.len(),
                        i <= n,
                        lists@.len() == i,
                        forall|j: int|
                            0 <= j < i ==> #[trigger] lists@[j]@ == chugsters_spec(users@[j]@),
                    decreases n - i,
                {
                    lists.push(chugsters_string(&users[i]));
                    i = i + 1;
                }
                proof {
                    assert(string_views(lists@) =~= Seq::new(
                        users@.len(),
                        |i: int| chugsters_spec(users@[i]@),
                    ));
                }
                ChugAction::Edit(self.embed_with(lists))
            },
            ChugEvent::ControlAdded { control, user_id, users } => {
                if user_id != self.author_id {
                    ChugAction::Ignore
                } else {
                    match control {
                        ChugControl::Cancel => ChugAction::Cancel,
                        ChugControl::Alert => {
                            let all = all_reacting_users(&users);
                            let ids = chugster_id_list(&all);
                            if ids.len() == 0 {
                                ChugAction::Ignore
                            } else {
                                let mut text = String::from_str(ALERT_PREFIX);
                                let list = chugsters_string(&all);
                                text.append(list.as_str());
                                ChugAction::Alert(text)
                            }
                        },
                    }
                }
            },
            ChugEvent::Other => ChugAction::Ignore,
        }
    }
}

} // verus!
