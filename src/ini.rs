use vstd::prelude::*;

verus! {

/// Race that a bot plays.
#[derive(Clone, Copy, Debug, PartialEq, Eq, Structural)]
pub enum Race {
    Protoss,
    Terran,
    Zerg,
    Random,
}

impl Race {
    /// The race's name as BWAPI's menu automation expects it.
    pub open spec fn spec_name(self) -> Seq<char> {
        match self {
            Race::Protoss => "Protoss"@,
            Race::Terran => "Terran"@,
            Race::Zerg => "Zerg"@,
            Race::Random => "Random"@,
        }
    }

    /// The race's name as BWAPI's menu automation expects it.
    pub fn name(&self) -> (r: &'static str)
        ensures
            r@ == self.spec_name(),
    {
        match self {
            Race::Protoss => "Protoss",
            Race::Terran => "Terran",
            Race::Zerg => "Zerg",
            Race::Random => "Random",
        }
    }
}

/// Network transport that the clients use to find each other.
#[derive(Clone, Copy, Debug, PartialEq, Eq, Structural)]
pub enum BwapiLanMode {
    LocalAreaNetworkUDP,
    LocalPC,
}

/// A transport name that is none of the accepted spellings; holds the text as
/// it was given.
#[derive(Debug)]
pub struct InvalidLanMode {
    pub input: String,
}

/// The transport that an already lower-cased name denotes.
pub open spec fn lan_mode_of(t: Seq<char>) -> Option<BwapiLanMode> {
    if t == "u"@ || t == "localareanetworkudp"@ {
        Some(BwapiLanMode::LocalAreaNetworkUDP)
    } else if t == "p"@ || t == "localpc"@ {
        Some(BwapiLanMode::LocalPC)
    } else {
        None
    }
}

/// Lower-case form of a text, as Rust's `str::to_lowercase` gives it.
pub uninterp spec fn lower_of(s: Seq<char>) -> Seq<char>;

/// Relies on `str::to_lowercase`: the lower-case form of the text, which
/// depends on its characters alone.
#[verifier::external_body]
fn lowercase(s: &str) -> (r: String)
    ensures
        r@ == lower_of(s@),
{
    s.to_lowercase()
}

impl BwapiLanMode {
    /// The name that BWAPI's menu shows for the transport.
    pub open spec fn spec_label(self) -> Seq<char> {
        match self {
            BwapiLanMode::LocalAreaNetworkUDP => "Local Area Network (UDP)"@,
            BwapiLanMode::LocalPC => "Local PC"@,
        }
    }

    /// The name that BWAPI's menu shows for the transport.
    pub fn label(&self) -> (r: &'static str)
        ensures
            r@ == self.spec_label(),
    {
        match self {
            BwapiLanMode::LocalAreaNetworkUDP => "Local Area Network (UDP)",
            BwapiLanMode::LocalPC => "Local PC",
        }
    }

    /// Reads a lower-cased transport name: `u` or `localareanetworkudp`,
    /// `p` or `localpc`.
    pub fn from_lowercase(t: &str) -> (r: Option<BwapiLanMode>)
        ensures
            r == lan_mode_of(t@),
    {
        let s = String::from_str(t);
        if s == String::from_str("u") || s == String::from_str("localareanetworkudp") {
            Some(BwapiLanMode::LocalAreaNetworkUDP)
        } else if s == String::from_str("p") || s == String::from_str("localpc") {
            Some(BwapiLanMode::LocalPC)
        } else {
            None
        }
    }

    /// Reads a transport name in any letter case; any other text is refused
    /// with an error that holds it.
    pub fn parse(s: &str) -> (r: Result<BwapiLanMode, InvalidLanMode>)
        ensures
            lan_mode_of(lower_of(s@)) matches Some(m) ==> r == Ok::<BwapiLanMode, InvalidLanMode>(m),
            lan_mode_of(lower_of(s@)) is None ==> (r matches Err(e) && e.input@ == s@),
    {
        let lowered = lowercase(s);
        match BwapiLanMode::from_lowercase(lowered.as_str()) {
            Some(m) => Ok(m),
            None => Err(InvalidLanMode { input: String::from_str(s) }),
        }
    }
}

/// Decimal digit character for `d < 10`.
pub open spec fn digit_char(d: nat) -> char {
    ((d + 48) as u8) as char
}

/// Decimal digits of a natural number, most significant first.
pub open spec fn digits(n: nat) -> Seq<char>
    decreases n,
{
    if n < 10 {
        seq![digit_char(n)]
    } else {
        digits(n / 10).push(digit_char(n % 10))
    }
}

/// Decimal text of an integer, with a leading `-` when it is negative.
pub open spec fn decimal(n: int) -> Seq<char> {
    if n < 0 {
        seq!['-'] + digits((-n) as nat)
    } else {
        digits(n as nat)
    }
}

/// Relies on `ToString` for `i128`, which writes the number in decimal.
#[verifier::external_body]
fn decimal_text(n: i128) -> (r: String)
    ensures
        r@ == decimal(n as int),
{
    n.to_string()
}

/// Whether the bot hosts the game or joins one.
pub enum BwapiConnectMode {
    /// Host a game on `map` (or on the map already chosen in the lobby) and
    /// wait for exactly `player_count` players.
    Host { map: Option<String>, player_count: usize },
    /// Join the game named in the menu automation settings.
    Join,
}

/// Who drives the game client's start menu.
pub enum AutoMenu {
    /// An outside tool drives the menu.
    Unused,
    /// BWAPI drives the menu with these settings.
    AutoMenu {
        name: String,
        race: Race,
        game_name: String,
        connect_mode: BwapiConnectMode,
        lan_mode: BwapiLanMode,
    },
}

impl Default for AutoMenu {
    fn default() -> (r: Self)
        ensures
            r is Unused,
    {
        AutoMenu::Unused
    }
}

/// The bot's binary, by kind, with its path.
pub enum Binary {
    Dll(String),
    Exe(String),
    Jar(String),
}

/// Settings of one bot's `bwapi.ini`.
pub struct BwapiIni {
    pub ai_module: String,
    pub tm_module: Option<String>,
    /// 0 runs the game at full speed.
    pub game_speed: i32,
    pub sound: bool,
    pub auto_menu: AutoMenu,
}

impl Default for BwapiIni {
    fn default() -> (r: Self)
        ensures
            r.ai_module@ == Seq::<char>::empty(),
            r.tm_module is None,
            r.game_speed == 0,
            !r.sound,
            r.auto_menu is Unused,
    {
        BwapiIni {
            ai_module: String::new(),
            tm_module: None,
            game_speed: 0,
            sound: false,
            auto_menu: AutoMenu::Unused,
        }
    }
}

/// The replay path template, expanded by BWAPI itself.
pub open spec fn replay_line() -> Seq<char> {
    "save_replay = replays/$Y $b $d/%MAP%_%BOTRACE%%ALLYRACES%vs%ENEMYRACES%_$H$M$S.rep"@
}

/// A `key=value` line of the menu automation section.
pub open spec fn entry_line(e: (Seq<char>, Seq<char>)) -> Seq<char> {
    e.0 + "="@ + e.1
}

/// Keys and values that depend on whether the bot hosts or joins.
pub open spec fn connect_entries(mode: BwapiConnectMode, game_name: Seq<char>) -> Seq<
    (Seq<char>, Seq<char>),
> {
    match mode {
        BwapiConnectMode::Host { map, player_count } => (match map {
            Some(m) => seq![("map"@, m@)],
            None => Seq::empty(),
        }) + seq![
            ("wait_for_min_players"@, decimal(player_count as int)),
            ("wait_for_max_players"@, decimal(player_count as int)),
        ],
        BwapiConnectMode::Join => seq![("game"@, game_name)],
    }
}

/// Keys and values that follow the `[auto_menu]` header.
pub open spec fn auto_menu_entries(menu: AutoMenu) -> Seq<(Seq<char>, Seq<char>)> {
    match menu {
        AutoMenu::Unused => Seq::empty(),
        AutoMenu::AutoMenu { name, race, game_name, connect_mode, lan_mode } => seq![
            ("auto_menu"@, "LAN"@),
            ("lan_mode"@, lan_mode.spec_label()),
            ("character_name"@, name@),
            ("race"@, race.spec_name()),
        ] + connect_entries(connect_mode, game_name@),
    }
}

/// The text of a list of lines, each ended by a line feed.
pub open spec fn text_of(lines: Seq<Seq<char>>) -> Seq<char>
    decreases lines.len(),
{
    if lines.len() == 0 {
        Seq::empty()
    } else {
        text_of(lines.drop_last()) + lines.last() + "\n"@
    }
}

/// The views of a list of strings.
pub open spec fn views(v: Seq<String>) -> Seq<Seq<char>> {
    v.map_values(|s: String| s@)
}

proof fn lemma_views_push(v: Seq<String>, s: String)
    ensures
        views(v.push(s)) == views(v).push(s@),
{
    assert(views(v.push(s)) =~= views(v).push(s@));
}

fn push_line(v: &mut Vec<String>, line: String)
    ensures
        views(final(v)@) == views(old(v)@).push(line@),
{
    proof {
        lemma_views_push(v@, line);
    }
    v.push(line);
}

fn concat(a: &str, b: &str) -> (r: String)
    ensures
        r@ == a@ + b@,
{
    let mut s = String::from_str(a);
    s.append(b);
    s
}

fn entry(key: &str, value: &str) -> (r: String)
    ensures
        r@ == entry_line((key@, value@)),
{
    let mut s = String::from_str(key);
    s.append("=");
    s.append(value);
    s
}

impl BwapiIni {
    /// Lines of the `[ai]` section.
    pub open spec fn ai_lines(&self) -> Seq<Seq<char>> {
        seq!["[ai]"@, "ai = "@ + self.ai_module@] + match self.tm_module {
            Some(tm) => seq!["tournament = "@ + tm@],
            None => Seq::empty(),
        }
    }

    /// Lines of the `[auto_menu]` section, header included.
    pub open spec fn auto_menu_lines(&self) -> Seq<Seq<char>> {
        seq!["[auto_menu]"@] + auto_menu_entries(self.auto_menu).map_values(
            |e: (Seq<char>, Seq<char>)| entry_line(e),
        )
    }

    /// The replay line and the lines of the `[starcraft]` section.
    pub open spec fn closing_lines(&self) -> Seq<Seq<char>> {
        seq![
            replay_line(),
            "[starcraft]"@,
            "speed_override = "@ + decimal(self.game_speed as int),
            "sound = "@ + if self.sound {
                "ON"@
            } else {
                "OFF"@
            },
        ]
    }

    /// All lines of the configuration document, in order.
    pub open spec fn spec_lines(&self) -> Seq<Seq<char>> {
        self.ai_lines() + self.auto_menu_lines() + self.closing_lines()
    }

    /// Settings for a bot: its DLL as the AI module (none for a bot that runs
    /// as its own process) and the tournament module, all else default.
    pub fn from(bot_binary: &Binary, tournament_module: Option<String>) -> (r: Self)
        ensures
            r.ai_module@ == match bot_binary {
                Binary::Dll(path) => path@,
                _ => Seq::<char>::empty(),
            },
            r.tm_module == tournament_module,
            r.game_speed == 0,
            !r.sound,
            r.auto_menu is Unused,
    {
        BwapiIni {
            ai_module: match bot_binary {
                Binary::Dll(path) => path.clone(),
                Binary::Exe(_) | Binary::Jar(_) => String::new(),
            },
            tm_module: tournament_module,
            game_speed: 0,
            sound: false,
            auto_menu: AutoMenu::Unused,
        }
    }

    fn push_ai_lines(&self, v: &mut Vec<String>)
        ensures
            views(final(v)@) == views(old(v)@) + self.ai_lines(),
    {
        let ghost start = views(v@);
        push_line(v, String::from_str("[ai]"));
        push_line(v, concat("ai = ", self.ai_module.as_str()));
        if let Some(tm) = &self.tm_module {
            push_line(v, concat("tournament = ", tm.as_str()));
        }
        assert(views(v@) =~= start + self.ai_lines());
    }

    fn push_auto_menu_lines(&self, v: &mut Vec<String>)
        ensures
            views(final(v)@) == views(old(v)@) + self.auto_menu_lines(),
    {
        let ghost start = views(v@);
        push_line(v, String::from_str("[auto_menu]"));
        match &self.auto_menu {
            AutoMenu::Unused => {},
            AutoMenu::AutoMenu { name, race, game_name, connect_mode, lan_mode } => {
                push_line(v, entry("auto_menu", "LAN"));
                push_line(v, entry("lan_mode", lan_mode.label()));
                push_line(v, entry("character_name", name.as_str()));
                push_line(v, entry("race", race.name()));
                match connect_mode {
                    BwapiConnectMode::Host { map, player_count } => {
                        if let Some(map_name) = map {
                            push_line(v, entry("map", map_name.as_str()));
                        }
                        let count = decimal_text(*player_count as i128);
                        push_line(v, entry("wait_for_min_players", count.as_str()));
                        push_line(v, entry("wait_for_max_players", count.as_str()));
                    },
                    BwapiConnectMode::Join => {
                        push_line(v, entry("game", game_name.as_str()));
                    },
                }
            },
        }
        assert(views(v@) =~= start + self.auto_menu_lines());
    }

    fn push_closing_lines(&self, v: &mut Vec<String>)
        ensures
            views(final(v)@) == views(old(v)@) + self.closing_lines(),
    {
        let ghost start = views(v@);
        push_line(
            v,
            String::from_str(
                "save_replay = replays/$Y $b $d/%MAP%_%BOTRACE%%ALLYRACES%vs%ENEMYRACES%_$H$M$S.rep",
            ),
        );
        push_line(v, String::from_str("[starcraft]"));
        let speed = decimal_text(self.game_speed as i128);
        push_line(v, concat("speed_override = ", speed.as_str()));
        let sound = if self.sound {
            "ON"
        } else {
            "OFF"
        };
        push_line(v, concat("sound = ", sound));
        assert(views(v@) =~= start + self.closing_lines());
    }

    /// The lines of the configuration document, in order.
    pub fn lines(&self) -> (r: Vec<String>)
        ensures
            views(r@) == self.spec_lines(),
    {
        let mut v: Vec<String> = Vec::new();
        assert(views(v@) =~= Seq::<Seq<char>>::empty());
        self.push_ai_lines(&mut v);
        self.push_auto_menu_lines(&mut v);
        self.push_closing_lines(&mut v);
        assert(views(v@) =~= self.spec_lines());
        v
    }

    /// The configuration document's text.
    pub open spec fn spec_text(&self) -> Seq<char> {
        text_of(self.spec_lines())
    }

    /// Appends the configuration document to `out`: each line of
    /// `lines()` followed by a line feed.
    pub fn write(&self, out: &mut String)
        ensures
            final(out)@ == old(out)@ + self.spec_text(),
    {
        let lines = self.lines();
        let ghost all = views(lines@);
        let mut i: usize = 0;
        assert(all.take(0) =~= Seq::<Seq<char>>::empty());
        assert(out@ =~= old(out)@ + text_of(all.take(0)));
        while i < lines.len()
            invariant
                i <= lines@.len(),
                all == views(lines@),
                out@ == old(out)@ + text_of(all.take(i as int)),
            decreases lines@.len() - i,
        {
            let ghost before = out@;
            out.append(lines[i].as_str());
            out.append("\n");
            proof {
                let next = all.take(i + 1);
                assert(next.drop_last() =~= all.take(i as int));
                assert(next.last() == lines@[i as int]@);
                assert(out@ =~= old(out)@ + text_of(next));
            }
            i = i + 1;
        }
        assert(all.take(lines@.len() as int) =~= all);
    }
}

/// The view of an optional text.
pub open spec fn opt_view(o: Option<String>) -> Option<Seq<char>> {
    match o {
        Some(s) => Some(s@),
        None => None,
    }
}

/// Two connection modes that say the same.
pub open spec fn same_connect_mode(a: BwapiConnectMode, b: BwapiConnectMode) -> bool {
    match (a, b) {
        (
            BwapiConnectMode::Host { map: ma, player_count: pa },
            BwapiConnectMode::Host { map: mb, player_count: pb },
        ) => opt_view(ma) == opt_view(mb) && pa == pb,
        (BwapiConnectMode::Join, BwapiConnectMode::Join) => true,
        _ => false,
    }
}

/// Two menu automation settings that say the same.
pub open spec fn same_auto_menu(a: AutoMenu, b: AutoMenu) -> bool {
    match (a, b) {
        (AutoMenu::Unused, AutoMenu::Unused) => true,
        (
            AutoMenu::AutoMenu {
                name: na,
                race: ra,
                game_name: ga,
                connect_mode: ca,
                lan_mode: la,
            },
            AutoMenu::AutoMenu {
                name: nb,
                race: rb,
                game_name: gb,
                connect_mode: cb,
                lan_mode: lb,
            },
        ) => na@ == nb@ && ra == rb && ga@ == gb@ && same_connect_mode(ca, cb) && la == lb,
        _ => false,
    }
}

/// Two settings that say the same, field by field.
pub open spec fn same_settings(a: BwapiIni, b: BwapiIni) -> bool {
    &&& a.ai_module@ == b.ai_module@
    &&& opt_view(a.tm_module) == opt_view(b.tm_module)
    &&& a.game_speed == b.game_speed
    &&& a.sound == b.sound
    &&& same_auto_menu(a.auto_menu, b.auto_menu)
}

/// The document is a function of the settings alone: settings that say the
/// same give the same lines and the same text.
pub proof fn lemma_document_deterministic(a: BwapiIni, b: BwapiIni)
    requires
        same_settings(a, b),
    ensures
        a.spec_lines() == b.spec_lines(),
        a.spec_text() == b.spec_text(),
{
    assert(a.ai_lines() =~= b.ai_lines());
    assert(auto_menu_entries(a.auto_menu) =~= auto_menu_entries(b.auto_menu));
    assert(a.auto_menu_lines() =~= b.auto_menu_lines());
    assert(a.closing_lines() =~= b.closing_lines());
}

/// A hosting bot's menu section waits for the same number of players at
/// least and at most, and names a map exactly when one was given.
pub proof fn lemma_host_entries(
    name: String,
    race: Race,
    game_name: String,
    map: Option<String>,
    player_count: usize,
    lan_mode: BwapiLanMode,
)
    ensures
        ({
            let entries = auto_menu_entries(
                AutoMenu::AutoMenu {
                    name,
                    race,
                    game_name,
                    connect_mode: BwapiConnectMode::Host { map, player_count },
                    lan_mode,
                },
            );
            &&& entries.contains(("wait_for_min_players"@, decimal(player_count as int)))
            &&& entries.contains(("wait_for_max_players"@, decimal(player_count as int)))
            &&& (exists|i: int| 0 <= i < entries.len() && (#[trigger] entries[i]).0 == "map"@)
                <==> map is Some
            &&& map matches Some(m) ==> entries.contains(("map"@, m@))
            &&& forall|i: int| 0 <= i < entries.len() ==> (#[trigger] entries[i]).0 != "game"@
        }),
{
    lemma_menu_keys_differ();
    let entries = auto_menu_entries(
        AutoMenu::AutoMenu {
            name,
            race,
            game_name,
            connect_mode: BwapiConnectMode::Host { map, player_count },
            lan_mode,
        },
    );
    let n = entries.len() - 1;
    assert(entries[n - 1] == ("wait_for_min_players"@, decimal(player_count as int)));
    assert(entries[n] == ("wait_for_max_players"@, decimal(player_count as int)));
    if let Some(m) = map {
        assert(entries[4] == ("map"@, m@));
    }
    assert forall|i: int| 0 <= i < entries.len() implies (#[trigger] entries[i]).0 != "game"@ && (
    entries[i].0 == "map"@ ==> map is Some) by {
        if i < 4 {
            assert(entries[i] == seq![
                ("auto_menu"@, "LAN"@),
                ("lan_mode"@, lan_mode.spec_label()),
                ("character_name"@, name@),
                ("race"@, race.spec_name()),
            ][i]);
            assert(i == 0 || i == 1 || i == 2 || i == 3);
        } else {
            assert(entries[i] == connect_entries(
                BwapiConnectMode::Host { map, player_count },
                game_name@,
            )[i - 4]);
        }
    }
}

proof fn lemma_menu_keys_differ()
    ensures
        "auto_menu"@ != "map"@,
        "lan_mode"@ != "map"@,
        "character_name"@ != "map"@,
        "race"@ != "map"@,
        "game"@ != "map"@,
        "wait_for_min_players"@ != "map"@,
        "wait_for_max_players"@ != "map"@,
        "auto_menu"@ != "game"@,
        "lan_mode"@ != "game"@,
        "character_name"@ != "game"@,
        "race"@ != "game"@,
        "wait_for_min_players"@ != "game"@,
        "wait_for_max_players"@ != "game"@,
        "auto_menu"@ != "wait_for_min_players"@,
        "lan_mode"@ != "wait_for_min_players"@,
        "character_name"@ != "wait_for_min_players"@,
        "race"@ != "wait_for_min_players"@,
        "game"@ != "wait_for_min_players"@,
        "auto_menu"@ != "wait_for_max_players"@,
        "lan_mode"@ != "wait_for_max_players"@,
        "character_name"@ != "wait_for_max_players"@,
        "race"@ != "wait_for_max_players"@,
        "game"@ != "wait_for_max_players"@,
{
    reveal_strlit("map");
    reveal_strlit("game");
    reveal_strlit("auto_menu");
    reveal_strlit("lan_mode");
    reveal_strlit("character_name");
    reveal_strlit("race");
    reveal_strlit("wait_for_min_players");
    reveal_strlit("wait_for_max_players");
    assert("map"@.len() == 3);
    assert("game"@.len() == 4);
    assert("race"@.len() == 4);
    assert("auto_menu"@.len() == 9);
    assert("lan_mode"@.len() == 8);
    assert("character_name"@.len() == 14);
    assert("wait_for_min_players"@.len() == 20);
    assert("wait_for_max_players"@.len() == 20);
    assert("race"@[0] != "game"@[0]);
}

/// A joining bot's menu section names the game to join and never a map or
/// a player count.
pub proof fn lemma_join_entries(
    name: String,
    race: Race,
    game_name: String,
    lan_mode: BwapiLanMode,
)
    ensures
        ({
            let entries = auto_menu_entries(
                AutoMenu::AutoMenu {
                    name,
                    race,
                    game_name,
                    connect_mode: BwapiConnectMode::Join,
                    lan_mode,
                },
            );
            &&& entries.contains(("game"@, game_name@))
            &&& forall|i: int|
                0 <= i < entries.len() ==> {
                    let key = (#[trigger] entries[i]).0;
                    &&& key != "map"@
                    &&& key != "wait_for_min_players"@
                    &&& key != "wait_for_max_players"@
                }
        }),
{
    lemma_menu_keys_differ();
    let entries = auto_menu_entries(
        AutoMenu::AutoMenu {
            name,
            race,
            game_name,
            connect_mode: BwapiConnectMode::Join,
            lan_mode,
        },
    );
    assert(entries[4] == ("game"@, game_name@));
    assert forall|i: int| 0 <= i < entries.len() implies {
        let key = (#[trigger] entries[i]).0;
        &&& key != "map"@
        &&& key != "wait_for_min_players"@
        &&& key != "wait_for_max_players"@
    } by {
        assert(i == 0 || i == 1 || i == 2 || i == 3 || i == 4);
    }
}

/// Without menu automation the `[auto_menu]` header stands alone: the
/// replay line follows it directly.
pub proof fn lemma_unused_menu_has_no_keys(ini: BwapiIni)
    requires
        ini.auto_menu is Unused,
    ensures
        auto_menu_entries(ini.auto_menu).len() == 0,
        ini.auto_menu_lines() == seq!["[auto_menu]"@],
        ini.spec_lines() == ini.ai_lines() + seq!["[auto_menu]"@] + ini.closing_lines(),
        ini.spec_lines()[ini.ai_lines().len() as int + 1] == replay_line(),
{
    assert(ini.auto_menu_lines() =~= seq!["[auto_menu]"@]);
}

} // verus!
