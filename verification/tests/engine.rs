//! The parser's own test suite: whole-input parses against expected trees.

use texmath::{parse, AtomType, Delimited, ParseNode, Radical, Symbol};

#[test]
fn parser() {
    assert_eq!(parse(r"").unwrap(), vec![]);

    assert_eq!(parse(r" 1 + \sqrt   2").unwrap(), parse(r"1+\sqrt2").unwrap());
    assert_eq!(parse(r"\sqrt  {  \sqrt  2 }").unwrap(), parse(r"\sqrt{\sqrt2}").unwrap());

    assert_eq!(
        parse(r"1 + {2 + 3}").unwrap(),
        vec![
            ParseNode::Symbol(Symbol { code: 120803, atom_type: AtomType::Alpha }),
            ParseNode::Symbol(Symbol { code: 43, atom_type: AtomType::Binary }),
            ParseNode::Group(vec![
                ParseNode::Symbol(Symbol { code: 120804, atom_type: AtomType::Alpha }),
                ParseNode::Symbol(Symbol { code: 43, atom_type: AtomType::Binary }),
                ParseNode::Symbol(Symbol { code: 120805, atom_type: AtomType::Alpha }),
            ]),
        ]
    );

    assert_eq!(
        parse(r"1+\left(3+2\right)=6").unwrap(),
        vec![
            ParseNode::Symbol(Symbol { code: 120803, atom_type: AtomType::Alpha }),
            ParseNode::Symbol(Symbol { code: 43, atom_type: AtomType::Binary }),
            ParseNode::Delimited(Delimited {
                left: Symbol { code: 40, atom_type: AtomType::Open },
                right: Symbol { code: 41, atom_type: AtomType::Close },
                inner: vec![
                    ParseNode::Symbol(Symbol { code: 120805, atom_type: AtomType::Alpha }),
                    ParseNode::Symbol(Symbol { code: 43, atom_type: AtomType::Binary }),
                    ParseNode::Symbol(Symbol { code: 120804, atom_type: AtomType::Alpha }),
                ],
            }),
            ParseNode::Symbol(Symbol { code: 61, atom_type: AtomType::Relation }),
            ParseNode::Symbol(Symbol { code: 120808, atom_type: AtomType::Alpha }),
        ]
    );

    assert_eq!(
        parse(r"1+\sqrt2").unwrap(),
        vec![
            ParseNode::Symbol(Symbol { code: 120803, atom_type: AtomType::Alpha }),
            ParseNode::Symbol(Symbol { code: 43, atom_type: AtomType::Binary }),
            ParseNode::Radical(Radical {
                inner: vec![ParseNode::Symbol(Symbol {
                    code: 120804,
                    atom_type: AtomType::Alpha,
                })],
            }),
        ]
    );
}

#[test]
fn fractions() {
    assert!(parse(r"\frac\alpha\beta").is_ok());
    assert!(parse(r"\frac\int2").is_ok());

    assert!(parse(r"\frac \left(1 + 2\right) 3").is_err());

    assert_eq!(parse(r"\frac12").unwrap(), parse(r"\frac{1}{2}").unwrap());
    assert_eq!(parse(r"\frac \sqrt2 3").unwrap(), parse(r"\frac{\sqrt2}{3}").unwrap());
    assert_eq!(parse(r"\frac \frac 1 2 3").unwrap(), parse(r"\frac{\frac12}{3}").unwrap());
    assert_eq!(parse(r"\frac 1 \sqrt2").unwrap(), parse(r"\frac{1}{\sqrt2}").unwrap());
}

#[test]
fn radicals() {
    assert!(parse(r"\sqrt{x}").is_ok());
    assert!(parse(r"\sqrt2").is_ok());
    assert!(parse(r"\sqrt\alpha").is_ok());
    assert!(parse(r"1^\sqrt2").is_ok());
    assert!(parse(r"\alpha_\sqrt{1+2}").is_ok());
    assert!(parse(r"\sqrt\sqrt2").is_ok());

    assert!(parse(r"\sqrt").is_err());
    assert!(parse(r"\sqrt_2").is_err());
    assert!(parse(r"\sqrt^2").is_err());

    assert_eq!(parse(r"\sqrt2").unwrap(), parse(r"\sqrt{2}").unwrap());

    assert_ne!(parse(r"\sqrt2_3").unwrap(), parse(r"\sqrt{2_3}").unwrap());
}

#[test]
fn scripts() {
    assert!(parse(r"1_2^3").is_ok());
    assert!(parse(r"_1").is_ok());
    assert!(parse(r"^\alpha").is_ok());
    assert!(parse(r"_2^\alpha").is_ok());
    assert!(parse(r"1_\frac12").is_ok());
    assert!(parse(r"2^\alpha").is_ok());
    assert!(parse(r"x_{1+2}").is_ok());
    assert!(parse(r"x^{2+3}").is_ok());
    assert!(parse(r"x^{1+2}_{2+3}").is_ok());
    assert!(parse(r"a^{b^c}").is_ok());
    assert!(parse(r"{a^b}^c").is_ok());
    assert!(parse(r"a_{b^c}").is_ok());
    assert!(parse(r"{a_b}^c").is_ok());
    assert!(parse(r"a^{b_c}").is_ok());
    assert!(parse(r"{a^b}_c").is_ok());
    assert!(parse(r"a_{b_c}").is_ok());
    assert!(parse(r"{a_b}_c").is_ok());

    assert!(parse(r"1_").is_err());
    assert!(parse(r"1^").is_err());
    assert!(parse(r"x_x_x").is_err());
    assert!(parse(r"x^x_x^x").is_err());
    assert!(parse(r"x^x^x").is_err());
    assert!(parse(r"x_x^x_x").is_err());

    assert_eq!(parse(r"x_\alpha^\beta").unwrap(), parse(r"x^\beta_\alpha").unwrap());
    assert_eq!(parse(r"_2^3").unwrap(), parse(r"^3_2").unwrap());
}
