//! The watchlist: the sector symbol lists and the union of their unique
//! symbols, in first-appearance order.

use vstd::prelude::*;
use vstd::hash_set::StringHashSet;
use vstd::string::StringExecFns;

verus! {

/// The characters of each symbol of a list, in order.
pub open spec fn views_of(s: Seq<&'static str>) -> Seq<Seq<char>> {
    s.map_values(|x: &'static str| x@)
}

/// The symbols of the finance sector list.
pub open spec fn finance_sector_views() -> Seq<Seq<char>> {
    seq![
        "JPM"@,
        "WFC"@,
        "C"@,
        "GS"@,
        "MS"@,
        "AXP"@,
        "V"@,
        "MA"@,
        "BLK"@,
        "SCHW"@,
        "PRU"@,
        "MET"@,
        "AIG"@,
        "COF"@,
        "TD"@,
        "RY"@,
        "BMO"@,
        "BNS"@,
        "CM"@,
        "ITUB"@,
        "BBD"@,
        "LYG"@,
        "BCS"@,
        "ESQ"@,
        "KEY"@,
        "ACGL"@,
        "ARES"@,
        "RF"@,
        "XLF"@,
    ]
}

/// The finance sector watchlist.
pub fn finance_sector() -> (v: Vec<&'static str>)
    ensures
        views_of(v@) == finance_sector_views(),
{
    let mut v: Vec<&'static str> = Vec::new();
    v.push("JPM");
    v.push("WFC");
    v.push("C");
    v.push("GS");
    v.push("MS");
    v.push("AXP");
    v.push("V");
    v.push("MA");
    v.push("BLK");
    v.push("SCHW");
    v.push("PRU");
    v.push("MET");
    v.push("AIG");
    v.push("COF");
    v.push("TD");
    v.push("RY");
    v.push("BMO");
    v.push("BNS");
    v.push("CM");
    v.push("ITUB");
    v.push("BBD");
    v.push("LYG");
    v.push("BCS");
    v.push("ESQ");
    v.push("KEY");
    v.push("ACGL");
    v.push("ARES");
    v.push("RF");
    v.push("XLF");
    proof {
        assert(views_of(v@) =~= finance_sector_views());
    }
    v
}

/// The symbols of the tech sector list.
pub open spec fn tech_sector_views() -> Seq<Seq<char>> {
    seq![
        "AAPL"@,
        "MSFT"@,
        "GOOG"@,
        "META"@,
        "AMZN"@,
        "TSLA"@,
        "NVDA"@,
        "INTC"@,
        "CRM"@,
        "ORCL"@,
        "CSCO"@,
        "ADBE"@,
        "IBM"@,
        "TXN"@,
        "QCOM"@,
        "SAP"@,
        "SHOP"@,
        "ASML"@,
        "INTU"@,
        "AMD"@,
        "MU"@,
        "SQ"@,
        "ADSK"@,
        "TEAM"@,
        "WDAY"@,
        "DELL"@,
        "HPQ"@,
        "ARRY"@,
        "TTMI"@,
        "MXL"@,
        "NTCT"@,
        "PLTR"@,
        "SOFI"@,
        "PINS"@,
        "COIN"@,
        "ARLO"@,
        "UI"@,
        "Z"@,
        "SE"@,
        "SONY"@,
        "TTWO"@,
        "XLK"@,
    ]
}

/// The tech sector watchlist.
pub fn tech_sector() -> (v: Vec<&'static str>)
    ensures
        views_of(v@) == tech_sector_views(),
{
    let mut v: Vec<&'static str> = Vec::new();
    v.push("AAPL");
    v.push("MSFT");
    v.push("GOOG");
    v.push("META");
    v.push("AMZN");
    v.push("TSLA");
    v.push("NVDA");
    v.push("INTC");
    v.push("CRM");
    v.push("ORCL");
    v.push("CSCO");
    v.push("ADBE");
    v.push("IBM");
    v.push("TXN");
    v.push("QCOM");
    v.push("SAP");
    v.push("SHOP");
    v.push("ASML");
    v.push("INTU");
    v.push("AMD");
    v.push("MU");
    v.push("SQ");
    v.push("ADSK");
    v.push("TEAM");
    v.push("WDAY");
    v.push("DELL");
    v.push("HPQ");
    v.push("ARRY");
    v.push("TTMI");
    v.push("MXL");
    v.push("NTCT");
    v.push("PLTR");
    v.push("SOFI");
    v.push("PINS");
    v.push("COIN");
    v.push("ARLO");
    v.push("UI");
    v.push("Z");
    v.push("SE");
    v.push("SONY");
    v.push("TTWO");
    v.push("XLK");
    proof {
        assert(views_of(v@) =~= tech_sector_views());
    }
    v
}

/// The symbols of the energy sector list.
pub open spec fn energy_sector_views() -> Seq<Seq<char>> {
    seq![
        "XOM"@,
        "CVX"@,
        "COP"@,
        "BP"@,
        "SLB"@,
        "EOG"@,
        "OXY"@,
        "VLO"@,
        "MPC"@,
        "PSX"@,
        "KMI"@,
        "WMB"@,
        "BKR"@,
        "HES"@,
        "APA"@,
        "FANG"@,
        "MRO"@,
        "CNQ"@,
        "PBR"@,
        "YPF"@,
        "ENB"@,
        "KOS"@,
        "MPLX"@,
        "BTU"@,
        "PBF"@,
        "CEG"@,
        "NRG"@,
        "CVI"@,
        "PTEN"@,
        "WDS"@,
        "FSLR"@,
        "XLE"@,
    ]
}

/// The energy sector watchlist.
pub fn energy_sector() -> (v: Vec<&'static str>)
    ensures
        views_of(v@) == energy_sector_views(),
{
    let mut v: Vec<&'static str> = Vec::new();
    v.push("XOM");
    v.push("CVX");
    v.push("COP");
    v.push("BP");
    v.push("SLB");
    v.push("EOG");
    v.push("OXY");
    v.push("VLO");
    v.push("MPC");
    v.push("PSX");
    v.push("KMI");
    v.push("WMB");
    v.push("BKR");
    v.push("HES");
    v.push("APA");
    v.push("FANG");
    v.push("MRO");
    v.push("CNQ");
    v.push("PBR");
    v.push("YPF");
    v.push("ENB");
    v.push("KOS");
    v.push("MPLX");
    v.push("BTU");
    v.push("PBF");
    v.push("CEG");
    v.push("NRG");
    v.push("CVI");
    v.push("PTEN");
    v.push("WDS");
    v.push("FSLR");
    v.push("XLE");
    proof {
        assert(views_of(v@) =~= energy_sector_views());
    }
    v
}

/// The symbols of the utility sector list.
pub open spec fn utility_sector_views() -> Seq<Seq<char>> {
    seq![
        "NEE"@,
        "DUK"@,
        "D"@,
        "SO"@,
        "EXC"@,
        "AEP"@,
        "SRE"@,
        "XEL"@,
        "PEG"@,
        "WEC"@,
        "DTE"@,
        "ED"@,
        "EIX"@,
        "AEE"@,
        "CNP"@,
        "CMS"@,
        "AWK"@,
        "ETR"@,
        "EVRG"@,
        "AES"@,
        "LNT"@,
        "NI"@,
        "PNW"@,
        "OGE"@,
        "NWE"@,
        "IDA"@,
        "POR"@,
        "AVA"@,
        "MGEE"@,
        "BEP"@,
        "XLU"@,
    ]
}

/// The utility sector watchlist.
pub fn utility_sector() -> (v: Vec<&'static str>)
    ensures
        views_of(v@) == utility_sector_views(),
{
    let mut v: Vec<&'static str> = Vec::new();
    v.push("NEE");
    v.push("DUK");
    v.push("D");
    v.push("SO");
    v.push("EXC");
    v.push("AEP");
    v.push("SRE");
    v.push("XEL");
    v.push("PEG");
    v.push("WEC");
    v.push("DTE");
    v.push("ED");
    v.push("EIX");
    v.push("AEE");
    v.push("CNP");
    v.push("CMS");
    v.push("AWK");
    v.push("ETR");
    v.push("EVRG");
    v.push("AES");
    v.push("LNT");
    v.push("NI");
    v.push("PNW");
    v.push("OGE");
    v.push("NWE");
    v.push("IDA");
    v.push("POR");
    v.push("AVA");
    v.push("MGEE");
    v.push("BEP");
    v.push("XLU");
    proof {
        assert(views_of(v@) =~= utility_sector_views());
    }
    v
}

/// The symbols of the real estate sector list.
pub open spec fn real_estate_sector_views() -> Seq<Seq<char>> {
    seq![
        "AVB"@,
        "EQR"@,
        "DLR"@,
        "VTR"@,
        "SBAC"@,
        "O"@,
        "REG"@,
        "EXR"@,
        "ARE"@,
        "UDR"@,
        "ESS"@,
        "ELS"@,
        "MAA"@,
        "CPT"@,
        "IRM"@,
        "RHP"@,
        "KRC"@,
        "NHI"@,
        "OHI"@,
        "XLRE"@,
    ]
}

/// The real estate sector watchlist.
pub fn real_estate_sector() -> (v: Vec<&'static str>)
    ensures
        views_of(v@) == real_estate_sector_views(),
{
    let mut v: Vec<&'static str> = Vec::new();
    v.push("AVB");
    v.push("EQR");
    v.push("DLR");
    v.push("VTR");
    v.push("SBAC");
    v.push("O");
    v.push("REG");
    v.push("EXR");
    v.push("ARE");
    v.push("UDR");
    v.push("ESS");
    v.push("ELS");
    v.push("MAA");
    v.push("CPT");
    v.push("IRM");
    v.push("RHP");
    v.push("KRC");
    v.push("NHI");
    v.push("OHI");
    v.push("XLRE");
    proof {
        assert(views_of(v@) =~= real_estate_sector_views());
    }
    v
}

/// The symbols of the communication sector list.
pub open spec fn communication_sector_views() -> Seq<Seq<char>> {
    seq![
        "DIS"@,
        "CMCSA"@,
        "VZ"@,
        "T"@,
        "TMUS"@,
        "FOX"@,
        "OMC"@,
        "TME"@,
        "MTCH"@,
        "IAC"@,
        "NTES"@,
        "BIDU"@,
        "ROKU"@,
        "LYV"@,
        "IQ"@,
        "VIAV"@,
        "EA"@,
        "SPOT"@,
        "NFLX"@,
        "XLC"@,
    ]
}

/// The communication sector watchlist.
pub fn communication_sector() -> (v: Vec<&'static str>)
    ensures
        views_of(v@) == communication_sector_views(),
{
    let mut v: Vec<&'static str> = Vec::new();
    v.push("DIS");
    v.push("CMCSA");
    v.push("VZ");
    v.push("T");
    v.push("TMUS");
    v.push("FOX");
    v.push("OMC");
    v.push("TME");
    v.push("MTCH");
    v.push("IAC");
    v.push("NTES");
    v.push("BIDU");
    v.push("ROKU");
    v.push("LYV");
    v.push("IQ");
    v.push("VIAV");
    v.push("EA");
    v.push("SPOT");
    v.push("NFLX");
    v.push("XLC");
    proof {
        assert(views_of(v@) =~= communication_sector_views());
    }
    v
}

/// The symbols of the metals mining sector list.
pub open spec fn metals_mining_sector_views() -> Seq<Seq<char>> {
    seq![
        "AEM"@,
        "WPM"@,
        "TECK"@,
        "SCCO"@,
        "FNV"@,
        "KGC"@,
        "PAAS"@,
        "AG"@,
        "IAG"@,
        "BTG"@,
        "HBM"@,
        "CCJ"@,
        "AA"@,
        "X"@,
        "CLF"@,
        "STLD"@,
        "RS"@,
        "CMC"@,
        "WOR"@,
        "SAND"@,
        "ARCH"@,
        "HL"@,
        "SGML"@,
        "SMID"@,
        "EQT"@,
        "SIL"@,
        "PSLV"@,
        "XME"@,
        "LIT"@,
        "REMX"@,
        "SLX"@,
    ]
}

/// The metals mining sector watchlist.
pub fn metals_mining_sector() -> (v: Vec<&'static str>)
    ensures
        views_of(v@) == metals_mining_sector_views(),
{
    let mut v: Vec<&'static str> = Vec::new();
    v.push("AEM");
    v.push("WPM");
    v.push("TECK");
    v.push("SCCO");
    v.push("FNV");
    v.push("KGC");
    v.push("PAAS");
    v.push("AG");
    v.push("IAG");
    v.push("BTG");
    v.push("HBM");
    v.push("CCJ");
    v.push("AA");
    v.push("X");
    v.push("CLF");
    v.push("STLD");
    v.push("RS");
    v.push("CMC");
    v.push("WOR");
    v.push("SAND");
    v.push("ARCH");
    v.push("HL");
    v.push("SGML");
    v.push("SMID");
    v.push("EQT");
    v.push("SIL");
    v.push("PSLV");
    v.push("XME");
    v.push("LIT");
    v.push("REMX");
    v.push("SLX");
    proof {
        assert(views_of(v@) =~= metals_mining_sector_views());
    }
    v
}

/// The symbols of the consumer staples sector list.
pub open spec fn consumer_staples_sector_views() -> Seq<Seq<char>> {
    seq![
        "PG"@,
        "KO"@,
        "PEP"@,
        "PM"@,
        "WMT"@,
        "MO"@,
        "COST"@,
        "MDLZ"@,
        "CL"@,
        "KMB"@,
        "STZ"@,
        "EL"@,
        "GIS"@,
        "KR"@,
        "ADM"@,
        "MNST"@,
        "TSN"@,
        "SYY"@,
        "DEO"@,
        "CPB"@,
        "CLX"@,
        "HSY"@,
        "CAG"@,
        "HRL"@,
        "MKC"@,
        "CHD"@,
        "CCEP"@,
        "SJM"@,
        "LW"@,
        "XLP"@,
    ]
}

/// The consumer staples sector watchlist.
pub fn consumer_staples_sector() -> (v: Vec<&'static str>)
    ensures
        views_of(v@) == consumer_staples_sector_views(),
{
    let mut v: Vec<&'static str> = Vec::new();
    v.push("PG");
    v.push("KO");
    v.push("PEP");
    v.push("PM");
    v.push("WMT");
    v.push("MO");
    v.push("COST");
    v.push("MDLZ");
    v.push("CL");
    v.push("KMB");
    v.push("STZ");
    v.push("EL");
    v.push("GIS");
    v.push("KR");
    v.push("ADM");
    v.push("MNST");
    v.push("TSN");
    v.push("SYY");
    v.push("DEO");
    v.push("CPB");
    v.push("CLX");
    v.push("HSY");
    v.push("CAG");
    v.push("HRL");
    v.push("MKC");
    v.push("CHD");
    v.push("CCEP");
    v.push("SJM");
    v.push("LW");
    v.push("XLP");
    proof {
        assert(views_of(v@) =~= consumer_staples_sector_views());
    }
    v
}

/// The symbols of the materials sector list.
pub open spec fn materials_sector_views() -> Seq<Seq<char>> {
    seq![
        "LIN"@,
        "APD"@,
        "ECL"@,
        "PPG"@,
        "SHW"@,
        "DOW"@,
        "LYB"@,
        "CTVA"@,
        "DD"@,
        "AVY"@,
        "IP"@,
        "CHX"@,
        "GPRE"@,
        "FCX"@,
        "NUE"@,
        "NEM"@,
        "XLB"@,
    ]
}

/// The materials sector watchlist.
pub fn materials_sector() -> (v: Vec<&'static str>)
    ensures
        views_of(v@) == materials_sector_views(),
{
    let mut v: Vec<&'static str> = Vec::new();
    v.push("LIN");
    v.push("APD");
    v.push("ECL");
    v.push("PPG");
    v.push("SHW");
    v.push("DOW");
    v.push("LYB");
    v.push("CTVA");
    v.push("DD");
    v.push("AVY");
    v.push("IP");
    v.push("CHX");
    v.push("GPRE");
    v.push("FCX");
    v.push("NUE");
    v.push("NEM");
    v.push("XLB");
    proof {
        assert(views_of(v@) =~= materials_sector_views());
    }
    v
}

/// The symbols of the industrial sector list.
pub open spec fn industrial_sector_views() -> Seq<Seq<char>> {
    seq![
        "MMM"@,
        "GE"@,
        "HON"@,
        "UNP"@,
        "CAT"@,
        "RTX"@,
        "DE"@,
        "EMR"@,
        "ITW"@,
        "NSC"@,
        "LMT"@,
        "GD"@,
        "ADP"@,
        "CSX"@,
        "CMI"@,
        "NOC"@,
        "WM"@,
        "ETN"@,
        "PCAR"@,
        "IR"@,
        "ROP"@,
        "PH"@,
        "TDG"@,
        "DOV"@,
        "SWK"@,
        "TXT"@,
        "CTAS"@,
        "CPRT"@,
        "GWW"@,
        "RSG"@,
        "AVY"@,
        "XYL"@,
        "ALLE"@,
        "MAS"@,
        "AME"@,
        "WAB"@,
        "WFRD"@,
        "ACA"@,
        "CLH"@,
        "FIX"@,
        "SYM"@,
        "XLI"@,
    ]
}

/// The industrial sector watchlist.
pub fn industrial_sector() -> (v: Vec<&'static str>)
    ensures
        views_of(v@) == industrial_sector_views(),
{
    let mut v: Vec<&'static str> = Vec::new();
    v.push("MMM");
    v.push("GE");
    v.push("HON");
    v.push("UNP");
    v.push("CAT");
    v.push("RTX");
    v.push("DE");
    v.push("EMR");
    v.push("ITW");
    v.push("NSC");
    v.push("LMT");
    v.push("GD");
    v.push("ADP");
    v.push("CSX");
    v.push("CMI");
    v.push("NOC");
    v.push("WM");
    v.push("ETN");
    v.push("PCAR");
    v.push("IR");
    v.push("ROP");
    v.push("PH");
    v.push("TDG");
    v.push("DOV");
    v.push("SWK");
    v.push("TXT");
    v.push("CTAS");
    v.push("CPRT");
    v.push("GWW");
    v.push("RSG");
    v.push("AVY");
    v.push("XYL");
    v.push("ALLE");
    v.push("MAS");
    v.push("AME");
    v.push("WAB");
    v.push("WFRD");
    v.push("ACA");
    v.push("CLH");
    v.push("FIX");
    v.push("SYM");
    v.push("XLI");
    proof {
        assert(views_of(v@) =~= industrial_sector_views());
    }
    v
}

/// The symbols of the healthcare sector list.
pub open spec fn healthcare_sector_views() -> Seq<Seq<char>> {
    seq![
        "JNJ"@,
        "PFE"@,
        "MRK"@,
        "ABBV"@,
        "ABT"@,
        "MDT"@,
        "AMGN"@,
        "BMY"@,
        "GILD"@,
        "TMO"@,
        "LLY"@,
        "DHR"@,
        "SYK"@,
        "BSX"@,
        "AZN"@,
        "CVS"@,
        "ISRG"@,
        "ZTS"@,
        "BDX"@,
        "CI"@,
        "VRTX"@,
        "HCA"@,
        "ALGN"@,
        "EW"@,
        "CNC"@,
        "REGN"@,
        "IQV"@,
        "HUM"@,
        "A"@,
        "WAT"@,
        "BAX"@,
        "BIIB"@,
        "HSIC"@,
        "RMD"@,
        "SAVA"@,
        "KROS"@,
        "AIRS"@,
        "XLV"@,
    ]
}

/// The healthcare sector watchlist.
pub fn healthcare_sector() -> (v: Vec<&'static str>)
    ensures
        views_of(v@) == healthcare_sector_views(),
{
    let mut v: Vec<&'static str> = Vec::new();
    v.push("JNJ");
    v.push("PFE");
    v.push("MRK");
    v.push("ABBV");
    v.push("ABT");
    v.push("MDT");
    v.push("AMGN");
    v.push("BMY");
    v.push("GILD");
    v.push("TMO");
    v.push("LLY");
    v.push("DHR");
    v.push("SYK");
    v.push("BSX");
    v.push("AZN");
    v.push("CVS");
    v.push("ISRG");
    v.push("ZTS");
    v.push("BDX");
    v.push("CI");
    v.push("VRTX");
    v.push("HCA");
    v.push("ALGN");
    v.push("EW");
    v.push("CNC");
    v.push("REGN");
    v.push("IQV");
    v.push("HUM");
    v.push("A");
    v.push("WAT");
    v.push("BAX");
    v.push("BIIB");
    v.push("HSIC");
    v.push("RMD");
    v.push("SAVA");
    v.push("KROS");
    v.push("AIRS");
    v.push("XLV");
    proof {
        assert(views_of(v@) =~= healthcare_sector_views());
    }
    v
}

/// The symbols of the consumer discretionary sector list.
pub open spec fn consumer_discretionary_sector_views() -> Seq<Seq<char>> {
    seq![
        "HD"@,
        "MCD"@,
        "NKE"@,
        "SBUX"@,
        "LOW"@,
        "BKNG"@,
        "TJX"@,
        "GM"@,
        "F"@,
        "EBAY"@,
        "ETSY"@,
        "YUM"@,
        "ORLY"@,
        "ROST"@,
        "DG"@,
        "AZO"@,
        "DLTR"@,
        "RCL"@,
        "CCL"@,
        "NCLH"@,
        "MGM"@,
        "LVS"@,
        "WYNN"@,
        "BBY"@,
        "ULTA"@,
        "GRMN"@,
        "PVH"@,
        "RL"@,
        "GPS"@,
        "TPR"@,
        "JWN"@,
        "DRVN"@,
        "CHDN"@,
        "RIVN"@,
        "DKNG"@,
        "BLBD"@,
        "Z"@,
        "RVLV"@,
        "LI"@,
        "TM"@,
        "XLY"@,
    ]
}

/// The consumer discretionary sector watchlist.
pub fn consumer_discretionary_sector() -> (v: Vec<&'static str>)
    ensures
        views_of(v@) == consumer_discretionary_sector_views(),
{
    let mut v: Vec<&'static str> = Vec::new();
    v.push("HD");
    v.push("MCD");
    v.push("NKE");
    v.push("SBUX");
    v.push("LOW");
    v.push("BKNG");
    v.push("TJX");
    v.push("GM");
    v.push("F");
    v.push("EBAY");
    v.push("ETSY");
    v.push("YUM");
    v.push("ORLY");
    v.push("ROST");
    v.push("DG");
    v.push("AZO");
    v.push("DLTR");
    v.push("RCL");
    v.push("CCL");
    v.push("NCLH");
    v.push("MGM");
    v.push("LVS");
    v.push("WYNN");
    v.push("BBY");
    v.push("ULTA");
    v.push("GRMN");
    v.push("PVH");
    v.push("RL");
    v.push("GPS");
    v.push("TPR");
    v.push("JWN");
    v.push("DRVN");
    v.push("CHDN");
    v.push("RIVN");
    v.push("DKNG");
    v.push("BLBD");
    v.push("Z");
    v.push("RVLV");
    v.push("LI");
    v.push("TM");
    v.push("XLY");
    proof {
        assert(views_of(v@) =~= consumer_discretionary_sector_views());
    }
    v
}

/// The symbols of the semiconductor sector list.
pub open spec fn semiconductor_sector_views() -> Seq<Seq<char>> {
    seq![
        "INTC"@,
        "TSM"@,
        "QCOM"@,
        "ASML"@,
        "TXN"@,
        "AMD"@,
        "MU"@,
        "ADI"@,
        "NXPI"@,
        "KLAC"@,
        "MCHP"@,
        "LRCX"@,
        "MRVL"@,
        "AMAT"@,
        "SWKS"@,
        "SNPS"@,
        "CDNS"@,
        "MSCI"@,
        "TER"@,
        "QRVO"@,
        "ON"@,
        "UMC"@,
        "SMTC"@,
        "MPWR"@,
        "ENPH"@,
        "SEDG"@,
        "IPGP"@,
        "COHU"@,
        "ASX"@,
        "GSIT"@,
        "SMH"@,
    ]
}

/// The semiconductor sector watchlist.
pub fn semiconductor_sector() -> (v: Vec<&'static str>)
    ensures
        views_of(v@) == semiconductor_sector_views(),
{
    let mut v: Vec<&'static str> = Vec::new();
    v.push("INTC");
    v.push("TSM");
    v.push("QCOM");
    v.push("ASML");
    v.push("TXN");
    v.push("AMD");
    v.push("MU");
    v.push("ADI");
    v.push("NXPI");
    v.push("KLAC");
    v.push("MCHP");
    v.push("LRCX");
    v.push("MRVL");
    v.push("AMAT");
    v.push("SWKS");
    v.push("SNPS");
    v.push("CDNS");
    v.push("MSCI");
    v.push("TER");
    v.push("QRVO");
    v.push("ON");
    v.push("UMC");
    v.push("SMTC");
    v.push("MPWR");
    v.push("ENPH");
    v.push("SEDG");
    v.push("IPGP");
    v.push("COHU");
    v.push("ASX");
    v.push("GSIT");
    v.push("SMH");
    proof {
        assert(views_of(v@) =~= semiconductor_sector_views());
    }
    v
}

/// The symbols of the transportation sector list.
pub open spec fn transportation_sector_views() -> Seq<Seq<char>> {
    seq![
        "UPS"@,
        "FDX"@,
        "DAL"@,
        "AAL"@,
        "LUV"@,
        "UAL"@,
        "CHRW"@,
        "JBHT"@,
        "ODFL"@,
        "LSTR"@,
        "EXPD"@,
        "R"@,
        "MATX"@,
        "SAIA"@,
        "ALK"@,
        "SAVE"@,
        "JBLU"@,
        "ZTO"@,
        "HUBG"@,
        "PATK"@,
        "ULH"@,
        "ARCB"@,
        "DSKE"@,
        "PTSI"@,
        "RLGT"@,
        "PANL"@,
        "UBER"@,
        "CVLG"@,
        "GLNG"@,
        "XTN"@,
    ]
}

/// The transportation sector watchlist.
pub fn transportation_sector() -> (v: Vec<&'static str>)
    ensures
        views_of(v@) == transportation_sector_views(),
{
    let mut v: Vec<&'static str> = Vec::new();
    v.push("UPS");
    v.push("FDX");
    v.push("DAL");
    v.push("AAL");
    v.push("LUV");
    v.push("UAL");
    v.push("CHRW");
    v.push("JBHT");
    v.push("ODFL");
    v.push("LSTR");
    v.push("EXPD");
    v.push("R");
    v.push("MATX");
    v.push("SAIA");
    v.push("ALK");
    v.push("SAVE");
    v.push("JBLU");
    v.push("ZTO");
    v.push("HUBG");
    v.push("PATK");
    v.push("ULH");
    v.push("ARCB");
    v.push("DSKE");
    v.push("PTSI");
    v.push("RLGT");
    v.push("PANL");
    v.push("UBER");
    v.push("CVLG");
    v.push("GLNG");
    v.push("XTN");
    proof {
        assert(views_of(v@) =~= transportation_sector_views());
    }
    v
}

/// The symbols of the emerging markets sector list.
pub open spec fn emerging_markets_sector_views() -> Seq<Seq<char>> {
    seq![
        "BABA"@,
        "HDB"@,
        "GGAL"@,
        "BMA"@,
        "BBAR"@,
        "VALE"@,
        "ITUB"@,
        "PBR"@,
        "GGB"@,
        "SBS"@,
        "EBR"@,
        "SBS"@,
        "ASR"@,
        "AMX"@,
        "BAP"@,
        "BVN"@,
        "BCH"@,
        "VWO"@,
    ]
}

/// The emerging markets sector watchlist.
pub fn emerging_markets_sector() -> (v: Vec<&'static str>)
    ensures
        views_of(v@) == emerging_markets_sector_views(),
{
    let mut v: Vec<&'static str> = Vec::new();
    v.push("BABA");
    v.push("HDB");
    v.push("GGAL");
    v.push("BMA");
    v.push("BBAR");
    v.push("VALE");
    v.push("ITUB");
    v.push("PBR");
    v.push("GGB");
    v.push("SBS");
    v.push("EBR");
    v.push("SBS");
    v.push("ASR");
    v.push("AMX");
    v.push("BAP");
    v.push("BVN");
    v.push("BCH");
    v.push("VWO");
    proof {
        assert(views_of(v@) =~= emerging_markets_sector_views());
    }
    v
}

/// The symbols of the exchange traded funds list.
pub open spec fn exchange_traded_funds_views() -> Seq<Seq<char>> {
    seq![
        "XLF"@,
        "XLRE"@,
        "XLC"@,
        "XME"@,
        "XLP"@,
        "XLB"@,
        "XLE"@,
        "XLI"@,
        "XLK"@,
        "XLV"@,
        "XLY"@,
        "XTN"@,
        "XLU"@,
        "SMH"@,
        "VWO"@,
        "QQQ"@,
        "SPY"@,
        "VTI"@,
        "VEA"@,
        "SCHF"@,
        "VOO"@,
        "VCLT"@,
        "VNQ"@,
        "VDE"@,
        "VTV"@,
        "VUG"@,
        "VHT"@,
        "VAW"@,
        "VIS"@,
        "VFH"@,
        "VPU"@,
        "VB"@,
        "VO"@,
        "VYM"@,
        "XPO"@,
    ]
}

/// The exchange traded funds watchlist.
pub fn exchange_traded_funds() -> (v: Vec<&'static str>)
    ensures
        views_of(v@) == exchange_traded_funds_views(),
{
    let mut v: Vec<&'static str> = Vec::new();
    v.push("XLF");
    v.push("XLRE");
    v.push("XLC");
    v.push("XME");
    v.push("XLP");
    v.push("XLB");
    v.push("XLE");
    v.push("XLI");
    v.push("XLK");
    v.push("XLV");
    v.push("XLY");
    v.push("XTN");
    v.push("XLU");
    v.push("SMH");
    v.push("VWO");
    v.push("QQQ");
    v.push("SPY");
    v.push("VTI");
    v.push("VEA");
    v.push("SCHF");
    v.push("VOO");
    v.push("VCLT");
    v.push("VNQ");
    v.push("VDE");
    v.push("VTV");
    v.push("VUG");
    v.push("VHT");
    v.push("VAW");
    v.push("VIS");
    v.push("VFH");
    v.push("VPU");
    v.push("VB");
    v.push("VO");
    v.push("VYM");
    v.push("XPO");
    proof {
        assert(views_of(v@) =~= exchange_traded_funds_views());
    }
    v
}

/// Every watchlist symbol, all sector lists concatenated in order,
/// duplicates included.
pub open spec fn watchlist_views() -> Seq<Seq<char>> {
    finance_sector_views() + tech_sector_views() + energy_sector_views() + utility_sector_views()
        + real_estate_sector_views() + communication_sector_views()
        + metals_mining_sector_views() + consumer_staples_sector_views()
        + materials_sector_views() + industrial_sector_views() + healthcare_sector_views()
        + consumer_discretionary_sector_views() + semiconductor_sector_views()
        + transportation_sector_views() + emerging_markets_sector_views()
        + exchange_traded_funds_views()
}

/// Concatenates every sector list, duplicates included.
fn all_watchlist_symbols() -> (v: Vec<&'static str>)
    ensures
        views_of(v@) == watchlist_views(),
{
    let mut v: Vec<&'static str> = Vec::new();
    append_all(&mut v, finance_sector());
    append_all(&mut v, tech_sector());
    append_all(&mut v, energy_sector());
    append_all(&mut v, utility_sector());
    append_all(&mut v, real_estate_sector());
    append_all(&mut v, communication_sector());
    append_all(&mut v, metals_mining_sector());
    append_all(&mut v, consumer_staples_sector());
    append_all(&mut v, materials_sector());
    append_all(&mut v, industrial_sector());
    append_all(&mut v, healthcare_sector());
    append_all(&mut v, consumer_discretionary_sector());
    append_all(&mut v, semiconductor_sector());
    append_all(&mut v, transportation_sector());
    append_all(&mut v, emerging_markets_sector());
    append_all(&mut v, exchange_traded_funds());
    proof {
        assert(views_of(v@) =~= watchlist_views());
    }
    v
}

/// Appends every element of `more` to `v`.
fn append_all(v: &mut Vec<&'static str>, more: Vec<&'static str>)
    ensures
        final(v)@ == old(v)@ + more@,
        views_of(final(v)@) == views_of(old(v)@) + views_of(more@),
{
    let mut k: usize = 0;
    while k < more.len()
        invariant
            k <= more@.len(),
            v@ == old(v)@ + more@.take(k as int),
        decreases more@.len() - k,
    {
        v.push(more[k]);
        proof {
            assert(old(v)@ + more@.take(k + 1) =~= (old(v)@ + more@.take(k as int)).push(
                more@[k as int],
            ));
        }
        k += 1;
    }
    proof {
        assert(more@.take(more@.len() as int) =~= more@);
        assert(views_of(v@) =~= views_of(old(v)@) + views_of(more@));
    }
}

/// All unique stock symbols across every sector watchlist: exactly the
/// symbols of the concatenated lists, each appearing once, in order of
/// first appearance.
pub fn get_all_unique_stock_symbols() -> (r: Vec<&'static str>)
    ensures
        forall|i: int, j: int| 0 <= i < j < r@.len() ==> views_of(r@)[i] != views_of(r@)[j],
        views_of(r@).to_set() == watchlist_views().to_set(),
{
    let all = all_watchlist_symbols();
    let mut seen = StringHashSet::new();
    let mut out: Vec<&'static str> = Vec::new();
    let mut k: usize = 0;
    proof {
        assert(views_of(out@) =~= Seq::<Seq<char>>::empty());
        assert(views_of(all@.take(0)) =~= Seq::<Seq<char>>::empty());
        assert(views_of(out@).to_set() =~= views_of(all@.take(0)).to_set());
    }
    while k < all.len()
        invariant
            k <= all@.len(),
            views_of(all@) == watchlist_views(),
            seen@ == views_of(out@).to_set(),
            views_of(out@).to_set() == views_of(all@.take(k as int)).to_set(),
            forall|i: int, j: int|
                0 <= i < j < out@.len() ==> views_of(out@)[i] != views_of(out@)[j],
        decreases all@.len() - k,
    {
        let s = all[k];
        proof {
            assert(all@.take(k + 1) =~= all@.take(k as int).push(all@[k as int]));
            assert(views_of(all@.take(k + 1)) =~= views_of(all@.take(k as int)).push(s@));
            views_of(all@.take(k as int)).lemma_push_to_set_commute(s@);
        }
        let ghost pre_out = out@;
        if !seen.contains(s) {
            proof {
                assert(!views_of(pre_out).contains(s@));
            }
            seen.insert(String::from_str(s));
            out.push(s);
            proof {
                assert(views_of(out@) =~= views_of(pre_out).push(s@));
                views_of(pre_out).lemma_push_to_set_commute(s@);
                assert(seen@ == views_of(out@).to_set());
                assert forall|i: int, j: int|
                    0 <= i < j < out@.len() implies views_of(out@)[i] != views_of(out@)[j] by {
                    if j == out@.len() - 1 {
                        assert(views_of(out@)[i] == views_of(pre_out)[i]);
                        assert(views_of(pre_out).contains(views_of(pre_out)[i]));
                    } else {
                        assert(views_of(out@)[i] == views_of(pre_out)[i]);
                        assert(views_of(out@)[j] == views_of(pre_out)[j]);
                    }
                }
            }
        } else {
            proof {
                let base = views_of(all@.take(k as int)).to_set();
                assert(base.contains(s@));
                assert(base.insert(s@) =~= base);
            }
        }
        k += 1;
    }
    proof {
        assert(all@.take(all@.len() as int) =~= all@);
    }
    out
}

} // verus!
