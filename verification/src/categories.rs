//! The category-code naming table of the paper metadata source: each
//! category code is mapped to its human-readable name, and a code outside
//! the table stands for itself. The table is split into one lookup per code
//! family to keep each piece small.

use vstd::prelude::*;

verus! {

use crate::text::{starts_with_str, str_eq};

/// The computer science codes.
pub open spec fn cs_category_name(code: Seq<char>) -> Seq<char> {
    if code == "cs.AI"@ {
        "Artificial Intelligence"@
    } else if code == "cs.AR"@ {
        "Hardware Architecture"@
    } else if code == "cs.CC"@ {
        "Computational Complexity"@
    } else if code == "cs.CE"@ {
        "Computational Engineering, Finance, and Science"@
    } else if code == "cs.CG"@ {
        "Computational Geometry"@
    } else if code == "cs.CL"@ {
        "Computation and Language"@
    } else if code == "cs.CR"@ {
        "Cryptography and Security"@
    } else if code == "cs.CV"@ {
        "Computer Vision and Pattern Recognition"@
    } else if code == "cs.CY"@ {
        "Computers and Society"@
    } else if code == "cs.DB"@ {
        "Databases"@
    } else if code == "cs.DC"@ {
        "Distributed, Parallel, and Cluster Computing"@
    } else if code == "cs.DL"@ {
        "Digital Libraries"@
    } else if code == "cs.DM"@ {
        "Discrete Mathematics"@
    } else if code == "cs.DS"@ {
        "Data Structures and Algorithms"@
    } else if code == "cs.ET"@ {
        "Emerging Technologies"@
    } else if code == "cs.FL"@ {
        "Formal Languages and Automata Theory"@
    } else if code == "cs.GL"@ {
        "General Literature"@
    } else if code == "cs.GR"@ {
        "Graphics"@
    } else if code == "cs.GT"@ {
        "Computer Science and Game Theory"@
    } else if code == "cs.HC"@ {
        "Human-Computer Interaction"@
    } else if code == "cs.IR"@ {
        "Information Retrieval"@
    } else if code == "cs.IT"@ {
        "Information Theory"@
    } else if code == "cs.LG"@ {
        "Machine Learning"@
    } else if code == "cs.LO"@ {
        "Logic in Computer Science"@
    } else if code == "cs.MA"@ {
        "Multiagent Systems"@
    } else if code == "cs.MM"@ {
        "Multimedia"@
    } else if code == "cs.MS"@ {
        "Mathematical Software"@
    } else if code == "cs.NA"@ {
        "Numerical Analysis"@
    } else if code == "cs.NE"@ {
        "Neural and Evolutionary Computing"@
    } else if code == "cs.NI"@ {
        "Networking and Internet Architecture"@
    } else if code == "cs.OH"@ {
        "Other Computer Science"@
    } else if code == "cs.OS"@ {
        "Operating Systems"@
    } else if code == "cs.PF"@ {
        "Performance"@
    } else if code == "cs.PL"@ {
        "Programming Languages"@
    } else if code == "cs.RO"@ {
        "Robotics"@
    } else if code == "cs.SC"@ {
        "Symbolic Computation"@
    } else if code == "cs.SD"@ {
        "Sound"@
    } else if code == "cs.SE"@ {
        "Software Engineering"@
    } else if code == "cs.SI"@ {
        "Social and Information Networks"@
    } else if code == "cs.SY"@ {
        "Systems and Control"@
    } else {
        code
    }
}

/// Looks a code up among the computer science codes.
fn lookup_cs(code: &str) -> (r: String)
    ensures
        r@ == cs_category_name(code@),
{
    if str_eq(code, "cs.AI") {
        return "Artificial Intelligence".to_owned();
    }
    if str_eq(code, "cs.AR") {
        return "Hardware Architecture".to_owned();
    }
    if str_eq(code, "cs.CC") {
        return "Computational Complexity".to_owned();
    }
    if str_eq(code, "cs.CE") {
        return "Computational Engineering, Finance, and Science".to_owned();
    }
    if str_eq(code, "cs.CG") {
        return "Computational Geometry".to_owned();
    }
    if str_eq(code, "cs.CL") {
        return "Computation and Language".to_owned();
    }
    if str_eq(code, "cs.CR") {
        return "Cryptography and Security".to_owned();
    }
    if str_eq(code, "cs.CV") {
        return "Computer Vision and Pattern Recognition".to_owned();
    }
    if str_eq(code, "cs.CY") {
        return "Computers and Society".to_owned();
    }
    if str_eq(code, "cs.DB") {
        return "Databases".to_owned();
    }
    if str_eq(code, "cs.DC") {
        return "Distributed, Parallel, and Cluster Computing".to_owned();
    }
    if str_eq(code, "cs.DL") {
        return "Digital Libraries".to_owned();
    }
    if str_eq(code, "cs.DM") {
        return "Discrete Mathematics".to_owned();
    }
    if str_eq(code, "cs.DS") {
        return "Data Structures and Algorithms".to_owned();
    }
    if str_eq(code, "cs.ET") {
        return "Emerging Technologies".to_owned();
    }
    if str_eq(code, "cs.FL") {
        return "Formal Languages and Automata Theory".to_owned();
    }
    if str_eq(code, "cs.GL") {
        return "General Literature".to_owned();
    }
    if str_eq(code, "cs.GR") {
        return "Graphics".to_owned();
    }
    if str_eq(code, "cs.GT") {
        return "Computer Science and Game Theory".to_owned();
    }
    if str_eq(code, "cs.HC") {
        return "Human-Computer Interaction".to_owned();
    }
    if str_eq(code, "cs.IR") {
        return "Information Retrieval".to_owned();
    }
    if str_eq(code, "cs.IT") {
        return "Information Theory".to_owned();
    }
    if str_eq(code, "cs.LG") {
        return "Machine Learning".to_owned();
    }
    if str_eq(code, "cs.LO") {
        return "Logic in Computer Science".to_owned();
    }
    if str_eq(code, "cs.MA") {
        return "Multiagent Systems".to_owned();
    }
    if str_eq(code, "cs.MM") {
        return "Multimedia".to_owned();
    }
    if str_eq(code, "cs.MS") {
        return "Mathematical Software".to_owned();
    }
    if str_eq(code, "cs.NA") {
        return "Numerical Analysis".to_owned();
    }
    if str_eq(code, "cs.NE") {
        return "Neural and Evolutionary Computing".to_owned();
    }
    if str_eq(code, "cs.NI") {
        return "Networking and Internet Architecture".to_owned();
    }
    if str_eq(code, "cs.OH") {
        return "Other Computer Science".to_owned();
    }
    if str_eq(code, "cs.OS") {
        return "Operating Systems".to_owned();
    }
    if str_eq(code, "cs.PF") {
        return "Performance".to_owned();
    }
    if str_eq(code, "cs.PL") {
        return "Programming Languages".to_owned();
    }
    if str_eq(code, "cs.RO") {
        return "Robotics".to_owned();
    }
    if str_eq(code, "cs.SC") {
        return "Symbolic Computation".to_owned();
    }
    if str_eq(code, "cs.SD") {
        return "Sound".to_owned();
    }
    if str_eq(code, "cs.SE") {
        return "Software Engineering".to_owned();
    }
    if str_eq(code, "cs.SI") {
        return "Social and Information Networks".to_owned();
    }
    if str_eq(code, "cs.SY") {
        return "Systems and Control".to_owned();
    }
    code.to_owned()
}

/// The mathematics codes.
pub open spec fn math_category_name(code: Seq<char>) -> Seq<char> {
    if code == "math.AC"@ {
        "Commutative Algebra"@
    } else if code == "math.AG"@ {
        "Algebraic Geometry"@
    } else if code == "math.AP"@ {
        "Analysis of PDEs"@
    } else if code == "math.AT"@ {
        "Algebraic Topology"@
    } else if code == "math.CA"@ {
        "Classical Analysis and ODEs"@
    } else if code == "math.CO"@ {
        "Combinatorics"@
    } else if code == "math.CT"@ {
        "Category Theory"@
    } else if code == "math.CV"@ {
        "Complex Variables"@
    } else if code == "math.DG"@ {
        "Differential Geometry"@
    } else if code == "math.DS"@ {
        "Dynamical Systems"@
    } else if code == "math.FA"@ {
        "Functional Analysis"@
    } else if code == "math.GM"@ {
        "General Mathematics"@
    } else if code == "math.GN"@ {
        "General Topology"@
    } else if code == "math.GR"@ {
        "Group Theory"@
    } else if code == "math.GT"@ {
        "Geometric Topology"@
    } else if code == "math.HO"@ {
        "History and Overview"@
    } else if code == "math.IT"@ {
        "Information Theory"@
    } else if code == "math.KT"@ {
        "K-Theory and Homology"@
    } else if code == "math.LO"@ {
        "Logic"@
    } else if code == "math.MG"@ {
        "Metric Geometry"@
    } else if code == "math.MP"@ {
        "Mathematical Physics"@
    } else if code == "math.NA"@ {
        "Numerical Analysis"@
    } else if code == "math.NT"@ {
        "Number Theory"@
    } else if code == "math.OA"@ {
        "Operator Algebras"@
    } else if code == "math.OC"@ {
        "Optimization and Control"@
    } else if code == "math.PR"@ {
        "Probability"@
    } else if code == "math.QA"@ {
        "Quantum Algebra"@
    } else if code == "math.RA"@ {
        "Rings and Algebras"@
    } else if code == "math.RT"@ {
        "Representation Theory"@
    } else if code == "math.SG"@ {
        "Symplectic Geometry"@
    } else if code == "math.SP"@ {
        "Spectral Theory"@
    } else if code == "math.ST"@ {
        "Statistics Theory"@
    } else {
        code
    }
}

/// Looks a code up among the mathematics codes.
fn lookup_math(code: &str) -> (r: String)
    ensures
        r@ == math_category_name(code@),
{
    if str_eq(code, "math.AC") {
        return "Commutative Algebra".to_owned();
    }
    if str_eq(code, "math.AG") {
        return "Algebraic Geometry".to_owned();
    }
    if str_eq(code, "math.AP") {
        return "Analysis of PDEs".to_owned();
    }
    if str_eq(code, "math.AT") {
        return "Algebraic Topology".to_owned();
    }
    if str_eq(code, "math.CA") {
        return "Classical Analysis and ODEs".to_owned();
    }
    if str_eq(code, "math.CO") {
        return "Combinatorics".to_owned();
    }
    if str_eq(code, "math.CT") {
        return "Category Theory".to_owned();
    }
    if str_eq(code, "math.CV") {
        return "Complex Variables".to_owned();
    }
    if str_eq(code, "math.DG") {
        return "Differential Geometry".to_owned();
    }
    if str_eq(code, "math.DS") {
        return "Dynamical Systems".to_owned();
    }
    if str_eq(code, "math.FA") {
        return "Functional Analysis".to_owned();
    }
    if str_eq(code, "math.GM") {
        return "General Mathematics".to_owned();
    }
    if str_eq(code, "math.GN") {
        return "General Topology".to_owned();
    }
    if str_eq(code, "math.GR") {
        return "Group Theory".to_owned();
    }
    if str_eq(code, "math.GT") {
        return "Geometric Topology".to_owned();
    }
    if str_eq(code, "math.HO") {
        return "History and Overview".to_owned();
    }
    if str_eq(code, "math.IT") {
        return "Information Theory".to_owned();
    }
    if str_eq(code, "math.KT") {
        return "K-Theory and Homology".to_owned();
    }
    if str_eq(code, "math.LO") {
        return "Logic".to_owned();
    }
    if str_eq(code, "math.MG") {
        return "Metric Geometry".to_owned();
    }
    if str_eq(code, "math.MP") {
        return "Mathematical Physics".to_owned();
    }
    if str_eq(code, "math.NA") {
        return "Numerical Analysis".to_owned();
    }
    if str_eq(code, "math.NT") {
        return "Number Theory".to_owned();
    }
    if str_eq(code, "math.OA") {
        return "Operator Algebras".to_owned();
    }
    if str_eq(code, "math.OC") {
        return "Optimization and Control".to_owned();
    }
    if str_eq(code, "math.PR") {
        return "Probability".to_owned();
    }
    if str_eq(code, "math.QA") {
        return "Quantum Algebra".to_owned();
    }
    if str_eq(code, "math.RA") {
        return "Rings and Algebras".to_owned();
    }
    if str_eq(code, "math.RT") {
        return "Representation Theory".to_owned();
    }
    if str_eq(code, "math.SG") {
        return "Symplectic Geometry".to_owned();
    }
    if str_eq(code, "math.SP") {
        return "Spectral Theory".to_owned();
    }
    if str_eq(code, "math.ST") {
        return "Statistics Theory".to_owned();
    }
    code.to_owned()
}

/// The physics codes.
pub open spec fn physics_category_name(code: Seq<char>) -> Seq<char> {
    if code == "physics.acc-ph"@ {
        "Accelerator Physics"@
    } else if code == "physics.ao-ph"@ {
        "Atmospheric and Oceanic Physics"@
    } else if code == "physics.app-ph"@ {
        "Applied Physics"@
    } else if code == "physics.atm-clus"@ {
        "Atomic and Molecular Clusters"@
    } else if code == "physics.atom-ph"@ {
        "Atomic Physics"@
    } else if code == "physics.bio-ph"@ {
        "Biological Physics"@
    } else if code == "physics.chem-ph"@ {
        "Chemical Physics"@
    } else if code == "physics.class-ph"@ {
        "Classical Physics"@
    } else if code == "physics.comp-ph"@ {
        "Computational Physics"@
    } else if code == "physics.data-an"@ {
        "Data Analysis, Statistics and Probability"@
    } else if code == "physics.ed-ph"@ {
        "Physics Education"@
    } else if code == "physics.flu-dyn"@ {
        "Fluid Dynamics"@
    } else if code == "physics.gen-ph"@ {
        "General Physics"@
    } else if code == "physics.geo-ph"@ {
        "Geophysics"@
    } else if code == "physics.hist-ph"@ {
        "History and Philosophy of Physics"@
    } else if code == "physics.ins-det"@ {
        "Instrumentation and Detectors"@
    } else if code == "physics.med-ph"@ {
        "Medical Physics"@
    } else if code == "physics.optics"@ {
        "Optics"@
    } else if code == "physics.plasm-ph"@ {
        "Plasma Physics"@
    } else if code == "physics.pop-ph"@ {
        "Popular Physics"@
    } else if code == "physics.soc-ph"@ {
        "Physics and Society"@
    } else if code == "physics.space-ph"@ {
        "Space Physics"@
    } else {
        code
    }
}

/// Looks a code up among the physics codes.
fn lookup_physics(code: &str) -> (r: String)
    ensures
        r@ == physics_category_name(code@),
{
    if str_eq(code, "physics.acc-ph") {
        return "Accelerator Physics".to_owned();
    }
    if str_eq(code, "physics.ao-ph") {
        return "Atmospheric and Oceanic Physics".to_owned();
    }
    if str_eq(code, "physics.app-ph") {
        return "Applied Physics".to_owned();
    }
    if str_eq(code, "physics.atm-clus") {
        return "Atomic and Molecular Clusters".to_owned();
    }
    if str_eq(code, "physics.atom-ph") {
        return "Atomic Physics".to_owned();
    }
    if str_eq(code, "physics.bio-ph") {
        return "Biological Physics".to_owned();
    }
    if str_eq(code, "physics.chem-ph") {
        return "Chemical Physics".to_owned();
    }
    if str_eq(code, "physics.class-ph") {
        return "Classical Physics".to_owned();
    }
    if str_eq(code, "physics.comp-ph") {
        return "Computational Physics".to_owned();
    }
    if str_eq(code, "physics.data-an") {
        return "Data Analysis, Statistics and Probability".to_owned();
    }
    if str_eq(code, "physics.ed-ph") {
        return "Physics Education".to_owned();
    }
    if str_eq(code, "physics.flu-dyn") {
        return "Fluid Dynamics".to_owned();
    }
    if str_eq(code, "physics.gen-ph") {
        return "General Physics".to_owned();
    }
    if str_eq(code, "physics.geo-ph") {
        return "Geophysics".to_owned();
    }
    if str_eq(code, "physics.hist-ph") {
        return "History and Philosophy of Physics".to_owned();
    }
    if str_eq(code, "physics.ins-det") {
        return "Instrumentation and Detectors".to_owned();
    }
    if str_eq(code, "physics.med-ph") {
        return "Medical Physics".to_owned();
    }
    if str_eq(code, "physics.optics") {
        return "Optics".to_owned();
    }
    if str_eq(code, "physics.plasm-ph") {
        return "Plasma Physics".to_owned();
    }
    if str_eq(code, "physics.pop-ph") {
        return "Popular Physics".to_owned();
    }
    if str_eq(code, "physics.soc-ph") {
        return "Physics and Society".to_owned();
    }
    if str_eq(code, "physics.space-ph") {
        return "Space Physics".to_owned();
    }
    code.to_owned()
}

/// The astrophysics codes.
pub open spec fn astro_category_name(code: Seq<char>) -> Seq<char> {
    if code == "astro-ph.CO"@ {
        "Cosmology and Nongalactic Astrophysics"@
    } else if code == "astro-ph.EP"@ {
        "Earth and Planetary Astrophysics"@
    } else if code == "astro-ph.GA"@ {
        "Astrophysics of Galaxies"@
    } else if code == "astro-ph.HE"@ {
        "High Energy Astrophysical Phenomena"@
    } else if code == "astro-ph.IM"@ {
        "Instrumentation and Methods for Astrophysics"@
    } else if code == "astro-ph.SR"@ {
        "Solar and Stellar Astrophysics"@
    } else {
        code
    }
}

/// Looks a code up among the astrophysics codes.
fn lookup_astro(code: &str) -> (r: String)
    ensures
        r@ == astro_category_name(code@),
{
    if str_eq(code, "astro-ph.CO") {
        return "Cosmology and Nongalactic Astrophysics".to_owned();
    }
    if str_eq(code, "astro-ph.EP") {
        return "Earth and Planetary Astrophysics".to_owned();
    }
    if str_eq(code, "astro-ph.GA") {
        return "Astrophysics of Galaxies".to_owned();
    }
    if str_eq(code, "astro-ph.HE") {
        return "High Energy Astrophysical Phenomena".to_owned();
    }
    if str_eq(code, "astro-ph.IM") {
        return "Instrumentation and Methods for Astrophysics".to_owned();
    }
    if str_eq(code, "astro-ph.SR") {
        return "Solar and Stellar Astrophysics".to_owned();
    }
    code.to_owned()
}

/// The condensed matter codes.
pub open spec fn cond_mat_category_name(code: Seq<char>) -> Seq<char> {
    if code == "cond-mat.dis-nn"@ {
        "Disordered Systems and Neural Networks"@
    } else if code == "cond-mat.mes-hall"@ {
        "Mesoscale and Nanoscale Physics"@
    } else if code == "cond-mat.mtrl-sci"@ {
        "Materials Science"@
    } else if code == "cond-mat.other"@ {
        "Other Condensed Matter"@
    } else if code == "cond-mat.quant-gas"@ {
        "Quantum Gases"@
    } else if code == "cond-mat.soft"@ {
        "Soft Condensed Matter"@
    } else if code == "cond-mat.stat-mech"@ {
        "Statistical Mechanics"@
    } else if code == "cond-mat.str-el"@ {
        "Strongly Correlated Electrons"@
    } else if code == "cond-mat.supr-con"@ {
        "Superconductivity"@
    } else {
        code
    }
}

/// Looks a code up among the condensed matter codes.
fn lookup_cond_mat(code: &str) -> (r: String)
    ensures
        r@ == cond_mat_category_name(code@),
{
    if str_eq(code, "cond-mat.dis-nn") {
        return "Disordered Systems and Neural Networks".to_owned();
    }
    if str_eq(code, "cond-mat.mes-hall") {
        return "Mesoscale and Nanoscale Physics".to_owned();
    }
    if str_eq(code, "cond-mat.mtrl-sci") {
        return "Materials Science".to_owned();
    }
    if str_eq(code, "cond-mat.other") {
        return "Other Condensed Matter".to_owned();
    }
    if str_eq(code, "cond-mat.quant-gas") {
        return "Quantum Gases".to_owned();
    }
    if str_eq(code, "cond-mat.soft") {
        return "Soft Condensed Matter".to_owned();
    }
    if str_eq(code, "cond-mat.stat-mech") {
        return "Statistical Mechanics".to_owned();
    }
    if str_eq(code, "cond-mat.str-el") {
        return "Strongly Correlated Electrons".to_owned();
    }
    if str_eq(code, "cond-mat.supr-con") {
        return "Superconductivity".to_owned();
    }
    code.to_owned()
}

/// The quantitative biology codes.
pub open spec fn q_bio_category_name(code: Seq<char>) -> Seq<char> {
    if code == "q-bio.BM"@ {
        "Biomolecules"@
    } else if code == "q-bio.CB"@ {
        "Cell Behavior"@
    } else if code == "q-bio.GN"@ {
        "Genomics"@
    } else if code == "q-bio.MN"@ {
        "Molecular Networks"@
    } else if code == "q-bio.NC"@ {
        "Neurons and Cognition"@
    } else if code == "q-bio.OT"@ {
        "Other Quantitative Biology"@
    } else if code == "q-bio.PE"@ {
        "Populations and Evolution"@
    } else if code == "q-bio.QM"@ {
        "Quantitative Methods"@
    } else if code == "q-bio.SC"@ {
        "Subcellular Processes"@
    } else if code == "q-bio.TO"@ {
        "Tissues and Organs"@
    } else {
        code
    }
}

/// Looks a code up among the quantitative biology codes.
fn lookup_q_bio(code: &str) -> (r: String)
    ensures
        r@ == q_bio_category_name(code@),
{
    if str_eq(code, "q-bio.BM") {
        return "Biomolecules".to_owned();
    }
    if str_eq(code, "q-bio.CB") {
        return "Cell Behavior".to_owned();
    }
    if str_eq(code, "q-bio.GN") {
        return "Genomics".to_owned();
    }
    if str_eq(code, "q-bio.MN") {
        return "Molecular Networks".to_owned();
    }
    if str_eq(code, "q-bio.NC") {
        return "Neurons and Cognition".to_owned();
    }
    if str_eq(code, "q-bio.OT") {
        return "Other Quantitative Biology".to_owned();
    }
    if str_eq(code, "q-bio.PE") {
        return "Populations and Evolution".to_owned();
    }
    if str_eq(code, "q-bio.QM") {
        return "Quantitative Methods".to_owned();
    }
    if str_eq(code, "q-bio.SC") {
        return "Subcellular Processes".to_owned();
    }
    if str_eq(code, "q-bio.TO") {
        return "Tissues and Organs".to_owned();
    }
    code.to_owned()
}

/// The quantitative finance codes.
pub open spec fn q_fin_category_name(code: Seq<char>) -> Seq<char> {
    if code == "q-fin.CP"@ {
        "Computational Finance"@
    } else if code == "q-fin.EC"@ {
        "Economics"@
    } else if code == "q-fin.GN"@ {
        "General Finance"@
    } else if code == "q-fin.MF"@ {
        "Mathematical Finance"@
    } else if code == "q-fin.PM"@ {
        "Portfolio Management"@
    } else if code == "q-fin.PR"@ {
        "Pricing of Securities"@
    } else if code == "q-fin.RM"@ {
        "Risk Management"@
    } else if code == "q-fin.ST"@ {
        "Statistical Finance"@
    } else if code == "q-fin.TR"@ {
        "Trading and Market Microstructure"@
    } else {
        code
    }
}

/// Looks a code up among the quantitative finance codes.
fn lookup_q_fin(code: &str) -> (r: String)
    ensures
        r@ == q_fin_category_name(code@),
{
    if str_eq(code, "q-fin.CP") {
        return "Computational Finance".to_owned();
    }
    if str_eq(code, "q-fin.EC") {
        return "Economics".to_owned();
    }
    if str_eq(code, "q-fin.GN") {
        return "General Finance".to_owned();
    }
    if str_eq(code, "q-fin.MF") {
        return "Mathematical Finance".to_owned();
    }
    if str_eq(code, "q-fin.PM") {
        return "Portfolio Management".to_owned();
    }
    if str_eq(code, "q-fin.PR") {
        return "Pricing of Securities".to_owned();
    }
    if str_eq(code, "q-fin.RM") {
        return "Risk Management".to_owned();
    }
    if str_eq(code, "q-fin.ST") {
        return "Statistical Finance".to_owned();
    }
    if str_eq(code, "q-fin.TR") {
        return "Trading and Market Microstructure".to_owned();
    }
    code.to_owned()
}

/// The statistics codes.
pub open spec fn stat_category_name(code: Seq<char>) -> Seq<char> {
    if code == "stat.AP"@ {
        "Applications"@
    } else if code == "stat.CO"@ {
        "Computation"@
    } else if code == "stat.ME"@ {
        "Methodology"@
    } else if code == "stat.ML"@ {
        "Machine Learning"@
    } else if code == "stat.OT"@ {
        "Other Statistics"@
    } else if code == "stat.TH"@ {
        "Statistics Theory"@
    } else {
        code
    }
}

/// Looks a code up among the statistics codes.
fn lookup_stat(code: &str) -> (r: String)
    ensures
        r@ == stat_category_name(code@),
{
    if str_eq(code, "stat.AP") {
        return "Applications".to_owned();
    }
    if str_eq(code, "stat.CO") {
        return "Computation".to_owned();
    }
    if str_eq(code, "stat.ME") {
        return "Methodology".to_owned();
    }
    if str_eq(code, "stat.ML") {
        return "Machine Learning".to_owned();
    }
    if str_eq(code, "stat.OT") {
        return "Other Statistics".to_owned();
    }
    if str_eq(code, "stat.TH") {
        return "Statistics Theory".to_owned();
    }
    code.to_owned()
}

/// The electrical engineering and systems science codes.
pub open spec fn eess_category_name(code: Seq<char>) -> Seq<char> {
    if code == "eess.AS"@ {
        "Audio and Speech Processing"@
    } else if code == "eess.IV"@ {
        "Image and Video Processing"@
    } else if code == "eess.SP"@ {
        "Signal Processing"@
    } else if code == "eess.SY"@ {
        "Systems and Control"@
    } else {
        code
    }
}

/// Looks a code up among the electrical engineering and systems science codes.
fn lookup_eess(code: &str) -> (r: String)
    ensures
        r@ == eess_category_name(code@),
{
    if str_eq(code, "eess.AS") {
        return "Audio and Speech Processing".to_owned();
    }
    if str_eq(code, "eess.IV") {
        return "Image and Video Processing".to_owned();
    }
    if str_eq(code, "eess.SP") {
        return "Signal Processing".to_owned();
    }
    if str_eq(code, "eess.SY") {
        return "Systems and Control".to_owned();
    }
    code.to_owned()
}

/// The economics codes.
pub open spec fn econ_category_name(code: Seq<char>) -> Seq<char> {
    if code == "econ.EM"@ {
        "Econometrics"@
    } else if code == "econ.GN"@ {
        "General Economics"@
    } else if code == "econ.TH"@ {
        "Theoretical Economics"@
    } else {
        code
    }
}

/// Looks a code up among the economics codes.
fn lookup_econ(code: &str) -> (r: String)
    ensures
        r@ == econ_category_name(code@),
{
    if str_eq(code, "econ.EM") {
        return "Econometrics".to_owned();
    }
    if str_eq(code, "econ.GN") {
        return "General Economics".to_owned();
    }
    if str_eq(code, "econ.TH") {
        return "Theoretical Economics".to_owned();
    }
    code.to_owned()
}

/// The nonlinear sciences codes.
pub open spec fn nlin_category_name(code: Seq<char>) -> Seq<char> {
    if code == "nlin.AO"@ {
        "Adaptation and Self-Organizing Systems"@
    } else if code == "nlin.CD"@ {
        "Chaotic Dynamics"@
    } else if code == "nlin.CG"@ {
        "Cellular Automata and Lattice Gases"@
    } else if code == "nlin.PS"@ {
        "Pattern Formation and Solitons"@
    } else if code == "nlin.SI"@ {
        "Exactly Solvable and Integrable Systems"@
    } else {
        code
    }
}

/// Looks a code up among the nonlinear sciences codes.
fn lookup_nlin(code: &str) -> (r: String)
    ensures
        r@ == nlin_category_name(code@),
{
    if str_eq(code, "nlin.AO") {
        return "Adaptation and Self-Organizing Systems".to_owned();
    }
    if str_eq(code, "nlin.CD") {
        return "Chaotic Dynamics".to_owned();
    }
    if str_eq(code, "nlin.CG") {
        return "Cellular Automata and Lattice Gases".to_owned();
    }
    if str_eq(code, "nlin.PS") {
        return "Pattern Formation and Solitons".to_owned();
    }
    if str_eq(code, "nlin.SI") {
        return "Exactly Solvable and Integrable Systems".to_owned();
    }
    code.to_owned()
}

/// The the codes outside any dotted family codes.
pub open spec fn misc_category_name(code: Seq<char>) -> Seq<char> {
    if code == "gr-qc"@ {
        "General Relativity and Quantum Cosmology"@
    } else if code == "hep-ex"@ {
        "High Energy Physics - Experiment"@
    } else if code == "hep-lat"@ {
        "High Energy Physics - Lattice"@
    } else if code == "hep-ph"@ {
        "High Energy Physics - Phenomenology"@
    } else if code == "hep-th"@ {
        "High Energy Physics - Theory"@
    } else if code == "math-ph"@ {
        "Mathematical Physics"@
    } else if code == "nucl-ex"@ {
        "Nuclear Experiment"@
    } else if code == "nucl-th"@ {
        "Nuclear Theory"@
    } else if code == "quant-ph"@ {
        "Quantum Physics"@
    } else {
        code
    }
}

/// Looks a code up among the the codes outside any dotted family codes.
fn lookup_misc(code: &str) -> (r: String)
    ensures
        r@ == misc_category_name(code@),
{
    if str_eq(code, "gr-qc") {
        return "General Relativity and Quantum Cosmology".to_owned();
    }
    if str_eq(code, "hep-ex") {
        return "High Energy Physics - Experiment".to_owned();
    }
    if str_eq(code, "hep-lat") {
        return "High Energy Physics - Lattice".to_owned();
    }
    if str_eq(code, "hep-ph") {
        return "High Energy Physics - Phenomenology".to_owned();
    }
    if str_eq(code, "hep-th") {
        return "High Energy Physics - Theory".to_owned();
    }
    if str_eq(code, "math-ph") {
        return "Mathematical Physics".to_owned();
    }
    if str_eq(code, "nucl-ex") {
        return "Nuclear Experiment".to_owned();
    }
    if str_eq(code, "nucl-th") {
        return "Nuclear Theory".to_owned();
    }
    if str_eq(code, "quant-ph") {
        return "Quantum Physics".to_owned();
    }
    code.to_owned()
}

/// The name of a category code, the code itself when the table lacks it.
pub open spec fn category_name_spec(code: Seq<char>) -> Seq<char> {
    if "cs."@.is_prefix_of(code) {
        cs_category_name(code)
    } else if "math."@.is_prefix_of(code) {
        math_category_name(code)
    } else if "physics."@.is_prefix_of(code) {
        physics_category_name(code)
    } else if "astro-ph."@.is_prefix_of(code) {
        astro_category_name(code)
    } else if "cond-mat."@.is_prefix_of(code) {
        cond_mat_category_name(code)
    } else if "q-bio."@.is_prefix_of(code) {
        q_bio_category_name(code)
    } else if "q-fin."@.is_prefix_of(code) {
        q_fin_category_name(code)
    } else if "stat."@.is_prefix_of(code) {
        stat_category_name(code)
    } else if "eess."@.is_prefix_of(code) {
        eess_category_name(code)
    } else if "econ."@.is_prefix_of(code) {
        econ_category_name(code)
    } else if "nlin."@.is_prefix_of(code) {
        nlin_category_name(code)
    } else {
        misc_category_name(code)
    }
}

/// The human-readable name of a paper category code; a code the table
/// does not know stands for itself.
pub fn get_category_code_name(code: &str) -> (r: String)
    ensures
        r@ == category_name_spec(code@),
{
    if starts_with_str(code, "cs.") {
        lookup_cs(code)
    } else if starts_with_str(code, "math.") {
        lookup_math(code)
    } else if starts_with_str(code, "physics.") {
        lookup_physics(code)
    } else if starts_with_str(code, "astro-ph.") {
        lookup_astro(code)
    } else if starts_with_str(code, "cond-mat.") {
        lookup_cond_mat(code)
    } else if starts_with_str(code, "q-bio.") {
        lookup_q_bio(code)
    } else if starts_with_str(code, "q-fin.") {
        lookup_q_fin(code)
    } else if starts_with_str(code, "stat.") {
        lookup_stat(code)
    } else if starts_with_str(code, "eess.") {
        lookup_eess(code)
    } else if starts_with_str(code, "econ.") {
        lookup_econ(code)
    } else if starts_with_str(code, "nlin.") {
        lookup_nlin(code)
    } else {
        lookup_misc(code)
    }
}

} // verus!
