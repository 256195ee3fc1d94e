use vstd::prelude::*;

verus! {

/// A written and spoken language, by its ISO 639-1 code. English is supported by every
/// calendar; French by a few.
#[derive(Debug, Clone, Copy, PartialEq, Eq, Structural)]
pub enum Language {
    /// English
    EN,
    /// French
    FR,
}

/// Names of the prefixes and stems of the Akan day cycle.
#[derive(Debug, Clone, Copy)]
pub struct AkanCycleDictionary<'a> {
    pub nwona: &'a str,
    pub nkyi: &'a str,
    pub kuru: &'a str,
    pub kwa: &'a str,
    pub mono: &'a str,
    pub fo: &'a str,
    pub wukuo: &'a str,
    pub yaw: &'a str,
    pub fie: &'a str,
    pub afie: &'a str,
    pub memene: &'a str,
    pub kwasi: &'a str,
    pub dwo: &'a str,
    pub bene: &'a str,
    pub seperator: &'a str,
}

/// Names of the months, days of the month and era of the Armenian calendar.
#[derive(Debug, Clone, Copy)]
pub struct ArmenianDictionary<'a> {
    pub nawasardi: &'a str,
    pub hori: &'a str,
    pub sahmi: &'a str,
    pub tre: &'a str,
    pub kaloch: &'a str,
    pub arach: &'a str,
    pub mehekani: &'a str,
    pub areg: &'a str,
    pub ahekani: &'a str,
    pub mareri: &'a str,
    pub margach: &'a str,
    pub hrotich: &'a str,
    pub aweleac: &'a str,
    pub areg_day: &'a str,
    pub hrand: &'a str,
    pub aram: &'a str,
    pub margar: &'a str,
    pub ahrank: &'a str,
    pub mazdel: &'a str,
    pub astlik: &'a str,
    pub mihr: &'a str,
    pub jopaber: &'a str,
    pub murc: &'a str,
    pub erezhan: &'a str,
    pub ani: &'a str,
    pub parkhar: &'a str,
    pub vanat: &'a str,
    pub aramazd: &'a str,
    pub mani: &'a str,
    pub asak: &'a str,
    pub masis: &'a str,
    pub anahit: &'a str,
    pub aragats: &'a str,
    pub gorgor: &'a str,
    pub kordvik: &'a str,
    pub tsmak: &'a str,
    pub lusnak: &'a str,
    pub tsron: &'a str,
    pub npat: &'a str,
    pub vahagn: &'a str,
    pub sim: &'a str,
    pub varag: &'a str,
    pub giseravar: &'a str,
    pub before_epoch_full: &'a str,
    pub after_epoch_full: &'a str,
    pub before_epoch_abr: &'a str,
    pub after_epoch_abr: &'a str,
}

/// Names of the halves of the day.
#[derive(Debug, Clone, Copy)]
pub struct CommonClockDictionary<'a> {
    pub am_full: &'a str,
    pub pm_full: &'a str,
    pub am_abr: &'a str,
    pub pm_abr: &'a str,
}

/// Names of the months and era of the Coptic calendar.
#[derive(Debug, Clone, Copy)]
pub struct CopticDictionary<'a> {
    pub thoout: &'a str,
    pub paope: &'a str,
    pub athor: &'a str,
    pub koiak: &'a str,
    pub tobe: &'a str,
    pub meshir: &'a str,
    pub paremotep: &'a str,
    pub parmoute: &'a str,
    pub pashons: &'a str,
    pub paone: &'a str,
    pub epep: &'a str,
    pub mesore: &'a str,
    pub epagomene: &'a str,
    pub before_martyrs_full: &'a str,
    pub after_martyrs_full: &'a str,
    pub before_martyrs_abr: &'a str,
    pub after_martyrs_abr: &'a str,
}

/// Names of the months, era and complementary days of the Cotsworth calendar.
#[derive(Debug, Clone, Copy)]
pub struct CotsworthDictionary<'a> {
    pub january: &'a str,
    pub february: &'a str,
    pub march: &'a str,
    pub april: &'a str,
    pub may: &'a str,
    pub june: &'a str,
    pub sol: &'a str,
    pub july: &'a str,
    pub august: &'a str,
    pub september: &'a str,
    pub october: &'a str,
    pub november: &'a str,
    pub december: &'a str,
    pub before_epoch_full: &'a str,
    pub after_epoch_full: &'a str,
    pub before_epoch_abr: &'a str,
    pub after_epoch_abr: &'a str,
    pub year_day: &'a str,
    pub leap_day: &'a str,
}

/// Names of the months, era and complementary days of the Egyptian calendar.
#[derive(Debug, Clone, Copy)]
pub struct EgyptianDictionary<'a> {
    pub thoth: &'a str,
    pub phaophi: &'a str,
    pub athyr: &'a str,
    pub choiak: &'a str,
    pub tybi: &'a str,
    pub mechir: &'a str,
    pub phamenoth: &'a str,
    pub pharmuthi: &'a str,
    pub pachon: &'a str,
    pub payni: &'a str,
    pub epiphi: &'a str,
    pub mesori: &'a str,
    pub epagomenae: &'a str,
    pub before_nabonassar_full: &'a str,
    pub after_nabonassar_full: &'a str,
    pub before_nabonassar_abr: &'a str,
    pub after_nabonassar_abr: &'a str,
    pub birth_of_osiris: &'a str,
    pub birth_of_horus: &'a str,
    pub birth_of_seth: &'a str,
    pub birth_of_isis: &'a str,
    pub birth_of_nephthys: &'a str,
}

/// Names of the months and era of the Ethiopic calendar.
#[derive(Debug, Clone, Copy)]
pub struct EthiopicDictionary<'a> {
    pub maskaram: &'a str,
    pub teqemt: &'a str,
    pub hedar: &'a str,
    pub takhsas: &'a str,
    pub ter: &'a str,
    pub yakatit: &'a str,
    pub magabit: &'a str,
    pub miyazya: &'a str,
    pub genbot: &'a str,
    pub sane: &'a str,
    pub hamle: &'a str,
    pub nahase: &'a str,
    pub paguemen: &'a str,
    pub before_incarnation_full: &'a str,
    pub after_incarnation_full: &'a str,
    pub before_incarnation_abr: &'a str,
    pub after_incarnation_abr: &'a str,
}

/// Names of the months, days of the decade, complementary days and era of the French Revolutionary calendar.
#[derive(Debug, Clone, Copy)]
pub struct FrenchRevolutionaryDictionary<'a> {
    pub vendemiaire: &'a str,
    pub brumaire: &'a str,
    pub frimaire: &'a str,
    pub nivose: &'a str,
    pub pluviose: &'a str,
    pub ventose: &'a str,
    pub germinal: &'a str,
    pub floreal: &'a str,
    pub prairial: &'a str,
    pub messidor: &'a str,
    pub thermidor: &'a str,
    pub fructidor: &'a str,
    pub primidi: &'a str,
    pub duodi: &'a str,
    pub tridi: &'a str,
    pub quartidi: &'a str,
    pub quintidi: &'a str,
    pub sextidi: &'a str,
    pub septidi: &'a str,
    pub octidi: &'a str,
    pub nonidi: &'a str,
    pub decadi: &'a str,
    pub fete_de_la_vertu: &'a str,
    pub fete_du_genie: &'a str,
    pub fete_du_travail: &'a str,
    pub fete_de_lopinion: &'a str,
    pub fete_des_recompenses: &'a str,
    pub fete_de_la_revolution: &'a str,
    pub before_republic_full: &'a str,
    pub after_republic_full: &'a str,
    pub before_republic_abr: &'a str,
    pub after_republic_abr: &'a str,
}

/// Names of the months and era of the Gregorian calendar.
#[derive(Debug, Clone, Copy)]
pub struct GregorianDictionary<'a> {
    pub january: &'a str,
    pub february: &'a str,
    pub march: &'a str,
    pub april: &'a str,
    pub may: &'a str,
    pub june: &'a str,
    pub july: &'a str,
    pub august: &'a str,
    pub september: &'a str,
    pub october: &'a str,
    pub november: &'a str,
    pub december: &'a str,
    pub before_common_era_full: &'a str,
    pub common_era_full: &'a str,
    pub before_common_era_abr: &'a str,
    pub common_era_abr: &'a str,
}

/// Names of the months and era of the Holocene calendar.
#[derive(Debug, Clone, Copy)]
pub struct HoloceneDictionary<'a> {
    pub january: &'a str,
    pub february: &'a str,
    pub march: &'a str,
    pub april: &'a str,
    pub may: &'a str,
    pub june: &'a str,
    pub july: &'a str,
    pub august: &'a str,
    pub september: &'a str,
    pub october: &'a str,
    pub november: &'a str,
    pub december: &'a str,
    pub before_human_era_full: &'a str,
    pub human_era_full: &'a str,
    pub before_human_era_abr: &'a str,
    pub human_era_abr: &'a str,
}

/// Names of the era of the ISO week calendar.
#[derive(Debug, Clone, Copy)]
pub struct ISODictionary<'a> {
    pub before_epoch_full: &'a str,
    pub after_epoch_full: &'a str,
    pub before_epoch_abr: &'a str,
    pub after_epoch_abr: &'a str,
}

/// Names of the months and era of the Julian calendar.
#[derive(Debug, Clone, Copy)]
pub struct JulianDictionary<'a> {
    pub january: &'a str,
    pub february: &'a str,
    pub march: &'a str,
    pub april: &'a str,
    pub may: &'a str,
    pub june: &'a str,
    pub july: &'a str,
    pub august: &'a str,
    pub september: &'a str,
    pub october: &'a str,
    pub november: &'a str,
    pub december: &'a str,
    pub before_christ_full: &'a str,
    pub anno_domini_full: &'a str,
    pub before_christ_abr: &'a str,
    pub anno_domini_abr: &'a str,
}

/// Names of the months, era and complementary days of the Positivist calendar.
#[derive(Debug, Clone, Copy)]
pub struct PositivistDictionary<'a> {
    pub moses: &'a str,
    pub homer: &'a str,
    pub aristotle: &'a str,
    pub archimedes: &'a str,
    pub caesar: &'a str,
    pub saint_paul: &'a str,
    pub charlemagne: &'a str,
    pub dante: &'a str,
    pub gutenburg: &'a str,
    pub shakespeare: &'a str,
    pub descartes: &'a str,
    pub frederick: &'a str,
    pub bichat: &'a str,
    pub before_crisis_full: &'a str,
    pub after_crisis_full: &'a str,
    pub before_crisis_abr: &'a str,
    pub after_crisis_abr: &'a str,
    pub festival_of_dead: &'a str,
    pub festival_of_holy_women: &'a str,
}

/// Names of the key days, months and eras of the Roman calendar, and the words that join them.
#[derive(Debug, Clone, Copy)]
pub struct RomanDictionary<'a> {
    pub kalends: &'a str,
    pub nones: &'a str,
    pub ides: &'a str,
    pub january: &'a str,
    pub february: &'a str,
    pub march: &'a str,
    pub april: &'a str,
    pub may: &'a str,
    pub june: &'a str,
    pub july: &'a str,
    pub august: &'a str,
    pub september: &'a str,
    pub october: &'a str,
    pub november: &'a str,
    pub december: &'a str,
    pub before_christ_full: &'a str,
    pub anno_domini_full: &'a str,
    pub before_christ_abr: &'a str,
    pub anno_domini_abr: &'a str,
    pub before_auc_full: &'a str,
    pub after_auc_full: &'a str,
    pub before_auc_abr: &'a str,
    pub after_auc_abr: &'a str,
    pub pridie: &'a str,
    pub ante_diem: &'a str,
    pub bissextum: &'a str,
    pub x_of_y: &'a str,
}

/// Names of the months and era of the Symmetry calendars.
#[derive(Debug, Clone, Copy)]
pub struct SymmetryDictionary<'a> {
    pub january: &'a str,
    pub february: &'a str,
    pub march: &'a str,
    pub april: &'a str,
    pub may: &'a str,
    pub june: &'a str,
    pub july: &'a str,
    pub august: &'a str,
    pub september: &'a str,
    pub october: &'a str,
    pub november: &'a str,
    pub december: &'a str,
    pub irvember: &'a str,
    pub before_epoch_full: &'a str,
    pub after_epoch_full: &'a str,
    pub before_epoch_abr: &'a str,
    pub after_epoch_abr: &'a str,
}

/// Names of the months, era and complementary days of the Tranquility calendar.
#[derive(Debug, Clone, Copy)]
pub struct TranquilityDictionary<'a> {
    pub archimedes: &'a str,
    pub brahe: &'a str,
    pub copernicus: &'a str,
    pub darwin: &'a str,
    pub einstein: &'a str,
    pub faraday: &'a str,
    pub galileo: &'a str,
    pub hippocrates: &'a str,
    pub imhotep: &'a str,
    pub jung: &'a str,
    pub kepler: &'a str,
    pub lavoisier: &'a str,
    pub mendel: &'a str,
    pub before_tranquility_full: &'a str,
    pub after_tranquility_full: &'a str,
    pub before_tranquility_abr: &'a str,
    pub after_tranquility_abr: &'a str,
    pub moon_landing_day: &'a str,
    pub armstrong_day: &'a str,
    pub aldrin_day: &'a str,
}

/// Names of the days of the common week.
#[derive(Debug, Clone, Copy)]
pub struct CommonWeekdayDictionary<'a> {
    pub sunday: &'a str,
    pub monday: &'a str,
    pub tuesday: &'a str,
    pub wednesday: &'a str,
    pub thursday: &'a str,
    pub friday: &'a str,
    pub saturday: &'a str,
}

/// The names that dates are written with in one language, for each system that has them.
#[derive(Debug, Clone, Copy)]
pub struct Dictionary<'a> {
    pub akan_cycle: Option<AkanCycleDictionary<'a>>,
    pub armenian: Option<ArmenianDictionary<'a>>,
    pub common_clock: Option<CommonClockDictionary<'a>>,
    pub coptic: Option<CopticDictionary<'a>>,
    pub cotsworth: Option<CotsworthDictionary<'a>>,
    pub egyptian: Option<EgyptianDictionary<'a>>,
    pub ethiopic: Option<EthiopicDictionary<'a>>,
    pub french_rev: Option<FrenchRevolutionaryDictionary<'a>>,
    pub gregorian: Option<GregorianDictionary<'a>>,
    pub holocene: Option<HoloceneDictionary<'a>>,
    pub iso: Option<ISODictionary<'a>>,
    pub julian: Option<JulianDictionary<'a>>,
    pub positivist: Option<PositivistDictionary<'a>>,
    pub roman: Option<RomanDictionary<'a>>,
    pub symmetry: Option<SymmetryDictionary<'a>>,
    pub tranquility: Option<TranquilityDictionary<'a>>,
    pub common_weekday: Option<CommonWeekdayDictionary<'a>>,
}

/// The names that dates are written with in a language.
pub open spec fn dictionary_spec(lang: Language) -> Dictionary<'static> {
    match lang {
        Language::EN => {
            Dictionary {
                akan_cycle: Some(
                    AkanCycleDictionary {
                        nwona: "Nwona",
                        nkyi: "Nkyi",
                        kuru: "Kuru",
                        kwa: "Kwa",
                        mono: "Mono",
                        fo: "Fo",
                        wukuo: "Wukuo",
                        yaw: "Yaw",
                        fie: "Fie",
                        afie: "Afie",
                        memene: "Memene",
                        kwasi: "Kwasi",
                        dwo: "Dwo",
                        bene: "Bene",
                        seperator: "-",
                    },
                ),
                armenian: Some(
                    ArmenianDictionary {
                        nawasardi: "Nawasardi",
                        hori: "Hori",
                        sahmi: "Sahmi",
                        tre: "Tre",
                        kaloch: "Kaloch",
                        arach: "Arach",
                        mehekani: "Mehekani",
                        areg: "Areg",
                        ahekani: "Ahekani",
                        mareri: "Mareri",
                        margach: "Margach",
                        hrotich: "Hrotich",
                        aweleac: "Aweleac",
                        areg_day: "Areg",
                        hrand: "Hrand",
                        aram: "Aram",
                        margar: "Margar",
                        ahrank: "Ahrank",
                        mazdel: "Mazdel",
                        astlik: "Astlik",
                        mihr: "Mihr",
                        jopaber: "Jopaber",
                        murc: "Murc",
                        erezhan: "Erezhan",
                        ani: "Ani",
                        parkhar: "Parkhar",
                        vanat: "Vanat",
                        aramazd: "Aramazd",
                        mani: "Mani",
                        asak: "Asak",
                        masis: "Masis",
                        anahit: "Anahit",
                        aragats: "Aragats",
                        gorgor: "Gorgor",
                        kordvik: "Kordvik",
                        tsmak: "Tsmak",
                        lusnak: "Lusnak",
                        tsron: "Tsron",
                        npat: "Npat",
                        vahagn: "Vahagn",
                        sim: "Sim",
                        varag: "Varag",
                        giseravar: "Giseravar",
                        before_epoch_full: "Before Armenian Era",
                        after_epoch_full: "Armenian Era",
                        before_epoch_abr: "BAE",
                        after_epoch_abr: "AE",
                    },
                ),
                common_clock: Some(
                    CommonClockDictionary {
                        am_full: "Ante Meridiem",
                        pm_full: "Post Meridiem",
                        am_abr: "AM",
                        pm_abr: "PM",
                    },
                ),
                coptic: Some(
                    CopticDictionary {
                        thoout: "Thoout",
                        paope: "Paope",
                        athor: "Athor",
                        koiak: "Koiak",
                        tobe: "Tobe",
                        meshir: "Meshir",
                        paremotep: "Paremotep",
                        parmoute: "Parmoute",
                        pashons: "Pashons",
                        paone: "Paone",
                        epep: "Epep",
                        mesore: "Mesore",
                        epagomene: "Epagomene",
                        before_martyrs_full: "Before the Era of the Martyrs",
                        after_martyrs_full: "Anno Martyrum",
                        before_martyrs_abr: "BAM",
                        after_martyrs_abr: "AM",
                    },
                ),
                cotsworth: Some(
                    CotsworthDictionary {
                        january: "January",
                        february: "February",
                        march: "March",
                        april: "April",
                        may: "May",
                        june: "June",
                        sol: "Sol",
                        july: "July",
                        august: "August",
                        september: "September",
                        october: "October",
                        november: "November",
                        december: "December",
                        before_epoch_full: "Before Common Era",
                        after_epoch_full: "Common Era",
                        before_epoch_abr: "BCE",
                        after_epoch_abr: "CE",
                        year_day: "Year Day",
                        leap_day: "Leap Day",
                    },
                ),
                egyptian: Some(
                    EgyptianDictionary {
                        thoth: "Thoth",
                        phaophi: "Phaophi",
                        athyr: "Athyr",
                        choiak: "Choiak",
                        tybi: "Tybi",
                        mechir: "Mechir",
                        phamenoth: "Phamenoth",
                        pharmuthi: "Pharmuthi",
                        pachon: "Pachon",
                        payni: "Payni",
                        epiphi: "Epiphi",
                        mesori: "Mesori",
                        epagomenae: "Epagomenae",
                        before_nabonassar_full: "Before the Era of Nabonassar",
                        after_nabonassar_full: "Era of Nabonassar",
                        before_nabonassar_abr: "BN",
                        after_nabonassar_abr: "EN",
                        birth_of_osiris: "Birth of Osiris",
                        birth_of_horus: "Birth of Horus",
                        birth_of_seth: "Birth of Seth",
                        birth_of_isis: "Birth of Isis",
                        birth_of_nephthys: "Birth of Nephthys",
                    },
                ),
                ethiopic: Some(
                    EthiopicDictionary {
                        maskaram: "Maskaram",
                        teqemt: "Teqemt",
                        hedar: "Hedar",
                        takhsas: "Takhsas",
                        ter: "Ter",
                        yakatit: "Yakatit",
                        magabit: "Magabit",
                        miyazya: "Miyazya",
                        genbot: "Genbot",
                        sane: "Sane",
                        hamle: "Hamle",
                        nahase: "Nahase",
                        paguemen: "Paguemen",
                        before_incarnation_full: "Before the Incarnation",
                        after_incarnation_full: "Year of Mercy",
                        before_incarnation_abr: "BI",
                        after_incarnation_abr: "YM",
                    },
                ),
                french_rev: Some(
                    FrenchRevolutionaryDictionary {
                        vendemiaire: "Vendémiaire",
                        brumaire: "Brumaire",
                        frimaire: "Frimaire",
                        nivose: "Nivôse",
                        pluviose: "Pluviôse",
                        ventose: "Ventôse",
                        germinal: "Germinal",
                        floreal: "Floréal",
                        prairial: "Prairial",
                        messidor: "Messidor",
                        thermidor: "Thermidor",
                        fructidor: "Fructidor",
                        primidi: "Primidi",
                        duodi: "Duodi",
                        tridi: "Tridi",
                        quartidi: "Quartidi",
                        quintidi: "Quintidi",
                        sextidi: "Sextidi",
                        septidi: "Septidi",
                        octidi: "Octidi",
                        nonidi: "Nonidi",
                        decadi: "Décadi",
                        fete_de_la_vertu: "Fête de la Vertu",
                        fete_du_genie: "Fête du Génie",
                        fete_du_travail: "Fête du Travail",
                        fete_de_lopinion: "Fête de l'Opinion",
                        fete_des_recompenses: "Fête des Récompenses",
                        fete_de_la_revolution: "Fête de la Révolution",
                        before_republic_full: "Before the Republic",
                        after_republic_full: "Year of the Republic",
                        before_republic_abr: "BR",
                        after_republic_abr: "R",
                    },
                ),
                gregorian: Some(
                    GregorianDictionary {
                        january: "January",
                        february: "February",
                        march: "March",
                        april: "April",
                        may: "May",
                        june: "June",
                        july: "July",
                        august: "August",
                        september: "September",
                        october: "October",
                        november: "November",
                        december: "December",
                        before_common_era_full: "Before Common Era",
                        common_era_full: "Common Era",
                        before_common_era_abr: "BCE",
                        common_era_abr: "CE",
                    },
                ),
                holocene: Some(
                    HoloceneDictionary {
                        january: "January",
                        february: "February",
                        march: "March",
                        april: "April",
                        may: "May",
                        june: "June",
                        july: "July",
                        august: "August",
                        september: "September",
                        october: "October",
                        november: "November",
                        december: "December",
                        before_human_era_full: "Before Human Era",
                        human_era_full: "Human Era",
                        before_human_era_abr: "BHE",
                        human_era_abr: "HE",
                    },
                ),
                iso: Some(
                    ISODictionary {
                        before_epoch_full: "Before Common Era",
                        after_epoch_full: "Common Era",
                        before_epoch_abr: "BCE",
                        after_epoch_abr: "CE",
                    },
                ),
                julian: Some(
                    JulianDictionary {
                        january: "January",
                        february: "February",
                        march: "March",
                        april: "April",
                        may: "May",
                        june: "June",
                        july: "July",
                        august: "August",
                        september: "September",
                        october: "October",
                        november: "November",
                        december: "December",
                        before_christ_full: "Before Christ",
                        anno_domini_full: "Anno Domini",
                        before_christ_abr: "BC",
                        anno_domini_abr: "AD",
                    },
                ),
                positivist: Some(
                    PositivistDictionary {
                        moses: "Moses",
                        homer: "Homer",
                        aristotle: "Aristotle",
                        archimedes: "Archimedes",
                        caesar: "Caesar",
                        saint_paul: "Saint Paul",
                        charlemagne: "Charlemagne",
                        dante: "Dante",
                        gutenburg: "Gutenberg",
                        shakespeare: "Shakespeare",
                        descartes: "Descartes",
                        frederick: "Frederick",
                        bichat: "Bichat",
                        before_crisis_full: "Before the Great Crisis",
                        after_crisis_full: "After the Great Crisis",
                        before_crisis_abr: "BGC",
                        after_crisis_abr: "AGC",
                        festival_of_dead: "Festival of All the Dead",
                        festival_of_holy_women: "Festival of Holy Women",
                    },
                ),
                roman: Some(
                    RomanDictionary {
                        kalends: "Kalends",
                        nones: "Nones",
                        ides: "Ides",
                        january: "January",
                        february: "February",
                        march: "March",
                        april: "April",
                        may: "May",
                        june: "June",
                        july: "July",
                        august: "August",
                        september: "September",
                        october: "October",
                        november: "November",
                        december: "December",
                        before_christ_full: "Before Christ",
                        anno_domini_full: "Anno Domini",
                        before_christ_abr: "BC",
                        anno_domini_abr: "AD",
                        before_auc_full: "Before the Founding of the City",
                        after_auc_full: "Ab Urbe Condita",
                        before_auc_abr: "BAUC",
                        after_auc_abr: "AUC",
                        pridie: "pridie",
                        ante_diem: "ante diem",
                        bissextum: "bissextum",
                        x_of_y: "of",
                    },
                ),
                symmetry: Some(
                    SymmetryDictionary {
                        january: "January",
                        february: "February",
                        march: "March",
                        april: "April",
                        may: "May",
                        june: "June",
                        july: "July",
                        august: "August",
                        september: "September",
                        october: "October",
                        november: "November",
                        december: "December",
                        irvember: "Irvember",
                        before_epoch_full: "Before Common Era",
                        after_epoch_full: "Common Era",
                        before_epoch_abr: "BCE",
                        after_epoch_abr: "CE",
                    },
                ),
                tranquility: Some(
                    TranquilityDictionary {
                        archimedes: "Archimedes",
                        brahe: "Brahe",
                        copernicus: "Copernicus",
                        darwin: "Darwin",
                        einstein: "Einstein",
                        faraday: "Faraday",
                        galileo: "Galileo",
                        hippocrates: "Hippocrates",
                        imhotep: "Imhotep",
                        jung: "Jung",
                        kepler: "Kepler",
                        lavoisier: "Lavoisier",
                        mendel: "Mendel",
                        before_tranquility_full: "Before Tranquility",
                        after_tranquility_full: "After Tranquility",
                        before_tranquility_abr: "BT",
                        after_tranquility_abr: "AT",
                        moon_landing_day: "Moon Landing Day",
                        armstrong_day: "Armstrong Day",
                        aldrin_day: "Aldrin Day",
                    },
                ),
                common_weekday: Some(
                    CommonWeekdayDictionary {
                        sunday: "Sunday",
                        monday: "Monday",
                        tuesday: "Tuesday",
                        wednesday: "Wednesday",
                        thursday: "Thursday",
                        friday: "Friday",
                        saturday: "Saturday",
                    },
                ),
            }
        },
        Language::FR => {
            Dictionary {
                akan_cycle: None,
                armenian: None,
                common_clock: Some(
                    CommonClockDictionary {
                        am_full: "Avant midi",
                        pm_full: "Après midi",
                        am_abr: "AM",
                        pm_abr: "PM",
                    },
                ),
                coptic: None,
                cotsworth: None,
                egyptian: None,
                ethiopic: None,
                french_rev: None,
                gregorian: Some(
                    GregorianDictionary {
                        january: "Janvier",
                        february: "Février",
                        march: "Mars",
                        april: "Avril",
                        may: "Mai",
                        june: "Juin",
                        july: "Juillet",
                        august: "Août",
                        september: "Septembre",
                        october: "Octobre",
                        november: "Novembre",
                        december: "Décembre",
                        before_common_era_full: "Avant l'ère commune",
                        common_era_full: "Ère commune",
                        before_common_era_abr: "AEC",
                        common_era_abr: "EC",
                    },
                ),
                holocene: None,
                iso: None,
                julian: Some(
                    JulianDictionary {
                        january: "Janvier",
                        february: "Février",
                        march: "Mars",
                        april: "Avril",
                        may: "Mai",
                        june: "Juin",
                        july: "Juillet",
                        august: "Août",
                        september: "Septembre",
                        october: "Octobre",
                        november: "Novembre",
                        december: "Décembre",
                        before_christ_full: "Avant Jésus-Christ",
                        anno_domini_full: "Après Jésus-Christ",
                        before_christ_abr: "av. J.-C.",
                        anno_domini_abr: "apr. J.-C.",
                    },
                ),
                positivist: Some(
                    PositivistDictionary {
                        moses: "Moïse",
                        homer: "Homère",
                        aristotle: "Aristote",
                        archimedes: "Archimède",
                        caesar: "César",
                        saint_paul: "Saint Paul",
                        charlemagne: "Charlemagne",
                        dante: "Dante",
                        gutenburg: "Gutenberg",
                        shakespeare: "Shakespeare",
                        descartes: "Descartes",
                        frederick: "Frédéric",
                        bichat: "Bichat",
                        before_crisis_full: "Avant la grande crise",
                        after_crisis_full: "Après la grande crise",
                        before_crisis_abr: "AGC",
                        after_crisis_abr: "PGC",
                        festival_of_dead: "Fête de tous les morts",
                        festival_of_holy_women: "Fête des saintes femmes",
                    },
                ),
                roman: None,
                symmetry: None,
                tranquility: None,
                common_weekday: Some(
                    CommonWeekdayDictionary {
                        sunday: "Dimanche",
                        monday: "Lundi",
                        tuesday: "Mardi",
                        wednesday: "Mercredi",
                        thursday: "Jeudi",
                        friday: "Vendredi",
                        saturday: "Samedi",
                    },
                ),
            }
        },
    }
}

/// The names that dates are written with in a language.
pub fn get_dict(lang: Language) -> (r: Dictionary<'static>)
    ensures
        r == dictionary_spec(lang),
{
    match lang {
        Language::EN => {
            Dictionary {
                akan_cycle: Some(
                    AkanCycleDictionary {
                        nwona: "Nwona",
                        nkyi: "Nkyi",
                        kuru: "Kuru",
                        kwa: "Kwa",
                        mono: "Mono",
                        fo: "Fo",
                        wukuo: "Wukuo",
                        yaw: "Yaw",
                        fie: "Fie",
                        afie: "Afie",
                        memene: "Memene",
                        kwasi: "Kwasi",
                        dwo: "Dwo",
                        bene: "Bene",
                        seperator: "-",
                    },
                ),
                armenian: Some(
                    ArmenianDictionary {
                        nawasardi: "Nawasardi",
                        hori: "Hori",
                        sahmi: "Sahmi",
                        tre: "Tre",
                        kaloch: "Kaloch",
                        arach: "Arach",
                        mehekani: "Mehekani",
                        areg: "Areg",
                        ahekani: "Ahekani",
                        mareri: "Mareri",
                        margach: "Margach",
                        hrotich: "Hrotich",
                        aweleac: "Aweleac",
                        areg_day: "Areg",
                        hrand: "Hrand",
                        aram: "Aram",
                        margar: "Margar",
                        ahrank: "Ahrank",
                        mazdel: "Mazdel",
                        astlik: "Astlik",
                        mihr: "Mihr",
                        jopaber: "Jopaber",
                        murc: "Murc",
                        erezhan: "Erezhan",
                        ani: "Ani",
                        parkhar: "Parkhar",
                        vanat: "Vanat",
                        aramazd: "Aramazd",
                        mani: "Mani",
                        asak: "Asak",
                        masis: "Masis",
                        anahit: "Anahit",
                        aragats: "Aragats",
                        gorgor: "Gorgor",
                        kordvik: "Kordvik",
                        tsmak: "Tsmak",
                        lusnak: "Lusnak",
                        tsron: "Tsron",
                        npat: "Npat",
                        vahagn: "Vahagn",
                        sim: "Sim",
                        varag: "Varag",
                        giseravar: "Giseravar",
                        before_epoch_full: "Before Armenian Era",
                        after_epoch_full: "Armenian Era",
                        before_epoch_abr: "BAE",
                        after_epoch_abr: "AE",
                    },
                ),
                common_clock: Some(
                    CommonClockDictionary {
                        am_full: "Ante Meridiem",
                        pm_full: "Post Meridiem",
                        am_abr: "AM",
                        pm_abr: "PM",
                    },
                ),
                coptic: Some(
                    CopticDictionary {
                        thoout: "Thoout",
                        paope: "Paope",
                        athor: "Athor",
                        koiak: "Koiak",
                        tobe: "Tobe",
                        meshir: "Meshir",
                        paremotep: "Paremotep",
                        parmoute: "Parmoute",
                        pashons: "Pashons",
                        paone: "Paone",
                        epep: "Epep",
                        mesore: "Mesore",
                        epagomene: "Epagomene",
                        before_martyrs_full: "Before the Era of the Martyrs",
                        after_martyrs_full: "Anno Martyrum",
                        before_martyrs_abr: "BAM",
                        after_martyrs_abr: "AM",
                    },
                ),
                cotsworth: Some(
                    CotsworthDictionary {
                        january: "January",
                        february: "February",
                        march: "March",
                        april: "April",
                        may: "May",
                        june: "June",
                        sol: "Sol",
                        july: "July",
                        august: "August",
                        september: "September",
                        october: "October",
                        november: "November",
                        december: "December",
                        before_epoch_full: "Before Common Era",
                        after_epoch_full: "Common Era",
                        before_epoch_abr: "BCE",
                        after_epoch_abr: "CE",
                        year_day: "Year Day",
                        leap_day: "Leap Day",
                    },
                ),
                egyptian: Some(
                    EgyptianDictionary {
                        thoth: "Thoth",
                        phaophi: "Phaophi",
                        athyr: "Athyr",
                        choiak: "Choiak",
                        tybi: "Tybi",
                        mechir: "Mechir",
                        phamenoth: "Phamenoth",
                        pharmuthi: "Pharmuthi",
                        pachon: "Pachon",
                        payni: "Payni",
                        epiphi: "Epiphi",
                        mesori: "Mesori",
                        epagomenae: "Epagomenae",
                        before_nabonassar_full: "Before the Era of Nabonassar",
                        after_nabonassar_full: "Era of Nabonassar",
                        before_nabonassar_abr: "BN",
                        after_nabonassar_abr: "EN",
                        birth_of_osiris: "Birth of Osiris",
                        birth_of_horus: "Birth of Horus",
                        birth_of_seth: "Birth of Seth",
                        birth_of_isis: "Birth of Isis",
                        birth_of_nephthys: "Birth of Nephthys",
                    },
                ),
                ethiopic: Some(
                    EthiopicDictionary {
                        maskaram: "Maskaram",
                        teqemt: "Teqemt",
                        hedar: "Hedar",
                        takhsas: "Takhsas",
                        ter: "Ter",
                        yakatit: "Yakatit",
                        magabit: "Magabit",
                        miyazya: "Miyazya",
                        genbot: "Genbot",
                        sane: "Sane",
                        hamle: "Hamle",
                        nahase: "Nahase",
                        paguemen: "Paguemen",
                        before_incarnation_full: "Before the Incarnation",
                        after_incarnation_full: "Year of Mercy",
                        before_incarnation_abr: "BI",
                        after_incarnation_abr: "YM",
                    },
                ),
                french_rev: Some(
                    FrenchRevolutionaryDictionary {
                        vendemiaire: "Vendémiaire",
                        brumaire: "Brumaire",
                        frimaire: "Frimaire",
                        nivose: "Nivôse",
                        pluviose: "Pluviôse",
                        ventose: "Ventôse",
                        germinal: "Germinal",
                        floreal: "Floréal",
                        prairial: "Prairial",
                        messidor: "Messidor",
                        thermidor: "Thermidor",
                        fructidor: "Fructidor",
                        primidi: "Primidi",
                        duodi: "Duodi",
                        tridi: "Tridi",
                        quartidi: "Quartidi",
                        quintidi: "Quintidi",
                        sextidi: "Sextidi",
                        septidi: "Septidi",
                        octidi: "Octidi",
                        nonidi: "Nonidi",
                        decadi: "Décadi",
                        fete_de_la_vertu: "Fête de la Vertu",
                        fete_du_genie: "Fête du Génie",
                        fete_du_travail: "Fête du Travail",
                        fete_de_lopinion: "Fête de l'Opinion",
                        fete_des_recompenses: "Fête des Récompenses",
                        fete_de_la_revolution: "Fête de la Révolution",
                        before_republic_full: "Before the Republic",
                        after_republic_full: "Year of the Republic",
                        before_republic_abr: "BR",
                        after_republic_abr: "R",
                    },
                ),
                gregorian: Some(
                    GregorianDictionary {
                        january: "January",
                        february: "February",
                        march: "March",
                        april: "April",
                        may: "May",
                        june: "June",
                        july: "July",
                        august: "August",
                        september: "September",
                        october: "October",
                        november: "November",
                        december: "December",
                        before_common_era_full: "Before Common Era",
                        common_era_full: "Common Era",
                        before_common_era_abr: "BCE",
                        common_era_abr: "CE",
                    },
                ),
                holocene: Some(
                    HoloceneDictionary {
                        january: "January",
                        february: "February",
                        march: "March",
                        april: "April",
                        may: "May",
                        june: "June",
                        july: "July",
                        august: "August",
                        september: "September",
                        october: "October",
                        november: "November",
                        december: "December",
                        before_human_era_full: "Before Human Era",
                        human_era_full: "Human Era",
                        before_human_era_abr: "BHE",
                        human_era_abr: "HE",
                    },
                ),
                iso: Some(
                    ISODictionary {
                        before_epoch_full: "Before Common Era",
                        after_epoch_full: "Common Era",
                        before_epoch_abr: "BCE",
                        after_epoch_abr: "CE",
                    },
                ),
                julian: Some(
                    JulianDictionary {
                        january: "January",
                        february: "February",
                        march: "March",
                        april: "April",
                        may: "May",
                        june: "June",
                        july: "July",
                        august: "August",
                        september: "September",
                        october: "October",
                        november: "November",
                        december: "December",
                        before_christ_full: "Before Christ",
                        anno_domini_full: "Anno Domini",
                        before_christ_abr: "BC",
                        anno_domini_abr: "AD",
                    },
                ),
                positivist: Some(
                    PositivistDictionary {
                        moses: "Moses",
                        homer: "Homer",
                        aristotle: "Aristotle",
                        archimedes: "Archimedes",
                        caesar: "Caesar",
                        saint_paul: "Saint Paul",
                        charlemagne: "Charlemagne",
                        dante: "Dante",
                        gutenburg: "Gutenberg",
                        shakespeare: "Shakespeare",
                        descartes: "Descartes",
                        frederick: "Frederick",
                        bichat: "Bichat",
                        before_crisis_full: "Before the Great Crisis",
                        after_crisis_full: "After the Great Crisis",
                        before_crisis_abr: "BGC",
                        after_crisis_abr: "AGC",
                        festival_of_dead: "Festival of All the Dead",
                        festival_of_holy_women: "Festival of Holy Women",
                    },
                ),
                roman: Some(
                    RomanDictionary {
                        kalends: "Kalends",
                        nones: "Nones",
                        ides: "Ides",
                        january: "January",
                        february: "February",
                        march: "March",
                        april: "April",
                        may: "May",
                        june: "June",
                        july: "July",
                        august: "August",
                        september: "September",
                        october: "October",
                        november: "November",
                        december: "December",
                        before_christ_full: "Before Christ",
                        anno_domini_full: "Anno Domini",
                        before_christ_abr: "BC",
                        anno_domini_abr: "AD",
                        before_auc_full: "Before the Founding of the City",
                        after_auc_full: "Ab Urbe Condita",
                        before_auc_abr: "BAUC",
                        after_auc_abr: "AUC",
                        pridie: "pridie",
                        ante_diem: "ante diem",
                        bissextum: "bissextum",
                        x_of_y: "of",
                    },
                ),
                symmetry: Some(
                    SymmetryDictionary {
                        january: "January",
                        february: "February",
                        march: "March",
                        april: "April",
                        may: "May",
                        june: "June",
                        july: "July",
                        august: "August",
                        september: "September",
                        october: "October",
                        november: "November",
                        december: "December",
                        irvember: "Irvember",
                        before_epoch_full: "Before Common Era",
                        after_epoch_full: "Common Era",
                        before_epoch_abr: "BCE",
                        after_epoch_abr: "CE",
                    },
                ),
                tranquility: Some(
                    TranquilityDictionary {
                        archimedes: "Archimedes",
                        brahe: "Brahe",
                        copernicus: "Copernicus",
                        darwin: "Darwin",
                        einstein: "Einstein",
                        faraday: "Faraday",
                        galileo: "Galileo",
                        hippocrates: "Hippocrates",
                        imhotep: "Imhotep",
                        jung: "Jung",
                        kepler: "Kepler",
                        lavoisier: "Lavoisier",
                        mendel: "Mendel",
                        before_tranquility_full: "Before Tranquility",
                        after_tranquility_full: "After Tranquility",
                        before_tranquility_abr: "BT",
                        after_tranquility_abr: "AT",
                        moon_landing_day: "Moon Landing Day",
                        armstrong_day: "Armstrong Day",
                        aldrin_day: "Aldrin Day",
                    },
                ),
                common_weekday: Some(
                    CommonWeekdayDictionary {
                        sunday: "Sunday",
                        monday: "Monday",
                        tuesday: "Tuesday",
                        wednesday: "Wednesday",
                        thursday: "Thursday",
                        friday: "Friday",
                        saturday: "Saturday",
                    },
                ),
            }
        },
        Language::FR => {
            Dictionary {
                akan_cycle: None,
                armenian: None,
                common_clock: Some(
                    CommonClockDictionary {
                        am_full: "Avant midi",
                        pm_full: "Après midi",
                        am_abr: "AM",
                        pm_abr: "PM",
                    },
                ),
                coptic: None,
                cotsworth: None,
                egyptian: None,
                ethiopic: None,
                french_rev: None,
                gregorian: Some(
                    GregorianDictionary {
                        january: "Janvier",
                        february: "Février",
                        march: "Mars",
                        april: "Avril",
                        may: "Mai",
                        june: "Juin",
                        july: "Juillet",
                        august: "Août",
                        september: "Septembre",
                        october: "Octobre",
                        november: "Novembre",
                        december: "Décembre",
                        before_common_era_full: "Avant l'ère commune",
                        common_era_full: "Ère commune",
                        before_common_era_abr: "AEC",
                        common_era_abr: "EC",
                    },
                ),
                holocene: None,
                iso: None,
                julian: Some(
                    JulianDictionary {
                        january: "Janvier",
                        february: "Février",
                        march: "Mars",
                        april: "Avril",
                        may: "Mai",
                        june: "Juin",
                        july: "Juillet",
                        august: "Août",
                        september: "Septembre",
                        october: "Octobre",
                        november: "Novembre",
                        december: "Décembre",
                        before_christ_full: "Avant Jésus-Christ",
                        anno_domini_full: "Après Jésus-Christ",
                        before_christ_abr: "av. J.-C.",
                        anno_domini_abr: "apr. J.-C.",
                    },
                ),
                positivist: Some(
                    PositivistDictionary {
                        moses: "Moïse",
                        homer: "Homère",
                        aristotle: "Aristote",
                        archimedes: "Archimède",
                        caesar: "César",
                        saint_paul: "Saint Paul",
                        charlemagne: "Charlemagne",
                        dante: "Dante",
                        gutenburg: "Gutenberg",
                        shakespeare: "Shakespeare",
                        descartes: "Descartes",
                        frederick: "Frédéric",
                        bichat: "Bichat",
                        before_crisis_full: "Avant la grande crise",
                        after_crisis_full: "Après la grande crise",
                        before_crisis_abr: "AGC",
                        after_crisis_abr: "PGC",
                        festival_of_dead: "Fête de tous les morts",
                        festival_of_holy_women: "Fête des saintes femmes",
                    },
                ),
                roman: None,
                symmetry: None,
                tranquility: None,
                common_weekday: Some(
                    CommonWeekdayDictionary {
                        sunday: "Dimanche",
                        monday: "Lundi",
                        tuesday: "Mardi",
                        wednesday: "Mercredi",
                        thursday: "Jeudi",
                        friday: "Vendredi",
                        saturday: "Samedi",
                    },
                ),
            }
        },
    }
}

} // verus!
