//! Vector algebra, carried over to the fixed-point representation: values
//! are scaled by `SCALE` and converted with round-to-nearest.

use abctracer::vector::Vector;
use abctracer::SCALE;

fn fx(v: f64) -> i64 {
    (v * SCALE as f64).round() as i64
}

#[test]
fn vector_is_f64() {
    format!(
        "{:?}",
        Vector {
            x: fx(1.),
            y: fx(1.),
            z: fx(1.),
        }
    );
}

#[test]
fn vector_from_scalar() {
    assert_eq!(
        Vector::from_scalar(fx(123.12)),
        Vector {
            x: fx(123.12),
            y: fx(123.12),
            z: fx(123.12),
        }
    );
}

#[test]
fn vector_assign_from_scalar() {
    let mut v = Vector {
        x: fx(1.0),
        y: fx(2.0),
        z: fx(3.0),
    };
    v.assign_from_scalar(fx(1.23));
    assert_eq!(
        v,
        Vector {
            x: fx(1.23),
            y: fx(1.23),
            z: fx(1.23),
        }
    );
}

#[test]
fn vector_neg() {
    assert_eq!(
        Vector {
            x: fx(1.0),
            y: fx(2.0),
            z: fx(3.0),
        }
        .neg(),
        Vector {
            x: fx(-1.0),
            y: fx(-2.0),
            z: fx(-3.0),
        }
    );
}

#[test]
fn vector_add() {
    assert_eq!(
        Vector {
            x: fx(1.0),
            y: fx(2.0),
            z: fx(3.0),
        }
        .add(Vector {
            x: fx(4.0),
            y: fx(5.0),
            z: fx(6.0),
        }),
        Vector {
            x: fx(5.0),
            y: fx(7.0),
            z: fx(9.0),
        },
    );
}

#[test]
fn vector_sub() {
    assert_eq!(
        Vector {
            x: fx(1.1),
            y: fx(2.2),
            z: fx(3.3),
        }
        .sub(Vector {
            x: fx(4.0),
            y: fx(5.0),
            z: fx(6.0),
        }),
        Vector {
            x: fx(-2.9),
            y: fx(-2.8),
            z: fx(-2.7),
        },
    );
}

#[test]
fn vector_mul_f64() {
    assert_eq!(
        Vector {
            x: fx(1.0),
            y: fx(2.0),
            z: fx(3.0),
        }
        .mul_s(fx(3.0)),
        Vector {
            x: fx(3.0),
            y: fx(6.0),
            z: fx(9.0),
        },
    );
    assert_eq!(
        Vector {
            x: fx(1.0),
            y: fx(2.0),
            z: fx(3.0),
        }
        .mul_s(fx(3.0)),
        Vector {
            x: fx(3.0),
            y: fx(6.0),
            z: fx(9.0),
        },
    );
}

#[test]
fn vector_div_f64() {
    assert_eq!(
        Vector {
            x: fx(3.0),
            y: fx(6.0),
            z: fx(9.0),
        }
        .div_s(fx(3.0)),
        Vector {
            x: fx(1.0),
            y: fx(2.0),
            z: fx(3.0),
        },
    );
}

#[test]
fn vector_div() {
    assert_eq!(
        Vector {
            x: fx(3.0),
            y: fx(6.0),
            z: fx(10.0),
        }
        .div(Vector {
            x: fx(1.5),
            y: fx(2.0),
            z: fx(2.5),
        }),
        Vector {
            x: fx(2.0),
            y: fx(3.0),
            z: fx(4.0),
        },
    );
}

#[test]
fn vector_add_assign() {
    let mut v = Vector {
        x: fx(1.0),
        y: fx(2.0),
        z: fx(3.0),
    };
    v.add_assign(Vector {
        x: fx(4.0),
        y: fx(5.0),
        z: fx(6.0),
    });
    assert_eq!(
        v,
        Vector {
            x: fx(5.0),
            y: fx(7.0),
            z: fx(9.0),
        },
    );
}

#[test]
fn vector_sub_assign() {
    let mut v = Vector {
        x: fx(1.0),
        y: fx(2.0),
        z: fx(3.0),
    };
    v.sub_assign(Vector {
        x: fx(2.0),
        y: fx(4.0),
        z: fx(6.0),
    });
    assert_eq!(
        v,
        Vector {
            x: fx(-1.0),
            y: fx(-2.0),
            z: fx(-3.0),
        },
    );
}

#[test]
fn vector_mul_assign() {
    let mut v = Vector {
        x: fx(1.0),
        y: fx(2.0),
        z: fx(3.0),
    };
    v.mul_assign(Vector {
        x: fx(2.0),
        y: fx(4.0),
        z: fx(6.0),
    });
    assert_eq!(
        v,
        Vector {
            x: fx(2.0),
            y: fx(8.0),
            z: fx(18.0),
        },
    );
}

#[test]
fn vector_mul_assign_f64() {
    let mut v = Vector {
        x: fx(1.0),
        y: fx(2.0),
        z: fx(3.0),
    };
    v.mul_assign_s(fx(3.0));
    assert_eq!(
        v,
        Vector {
            x: fx(3.0),
            y: fx(6.0),
            z: fx(9.0),
        },
    );
}

#[test]
fn vector_div_assign_f64() {
    let mut v = Vector {
        x: fx(3.0),
        y: fx(6.0),
        z: fx(9.0),
    };
    v.div_assign_s(fx(3.0));
    assert_eq!(
        v,
        Vector {
            x: fx(1.0),
            y: fx(2.0),
            z: fx(3.0),
        },
    );
}

#[test]
fn vector_bitand() {
    assert_eq!(
        Vector {
            x: fx(1.5),
            y: fx(2.0),
            z: fx(3.0),
        }
        .dot(Vector {
            x: fx(1.0),
            y: fx(2.0),
            z: fx(-3.0),
        }),
        fx(1.5 * 1.0 + 2.0 * 2.0 - 3.0 * 3.0)
    );
}

#[test]
fn vector_bitxor() {
    assert_eq!(
        Vector {
            x: fx(1.0),
            y: fx(0.0),
            z: fx(0.0),
        }
        .cross(Vector {
            x: fx(0.0),
            y: fx(1.0),
            z: fx(0.0),
        }),
        Vector {
            x: fx(0.0),
            y: fx(0.0),
            z: fx(1.0),
        }
    );
}

#[test]
fn vector_not() {
    let len = Vector {
        x: fx(1.0),
        y: fx(2.0),
        z: fx(3.0),
    }
    .length();
    let expected = fx(14.0_f64.sqrt());
    assert!((len - expected).abs() <= 1, "length {} vs {}", len, expected);
}

#[test]
fn vector_compare() {
    assert!(Vector {
        x: fx(1.0),
        y: fx(2.0),
        z: fx(3.0),
    }
    .gt(fx(0.5)));
    assert!(Vector {
        x: fx(1.0),
        y: fx(2.0),
        z: fx(3.0),
    }
    .lt(fx(3.5)));
}

#[test]
fn vector_normalize() {
    assert_eq!(
        Vector {
            x: fx(3.0),
            y: fx(0.0),
            z: fx(0.0),
        }
        .normalize(),
        Vector {
            x: fx(1.0),
            y: fx(0.0),
            z: fx(0.0),
        }
    );
}

#[test]
fn vector_clip() {
    let v = Vector {
        x: fx(3.0),
        y: fx(2.0),
        z: fx(0.5),
    };
    assert_eq!(
        v.clip(),
        Vector {
            x: fx(1.0),
            y: fx(1.0),
            z: fx(0.5),
        }
    );
    assert_eq!(
        Vector {
            x: fx(-0.5),
            y: fx(2.0),
            z: fx(0.5),
        }
        .clip(),
        Vector {
            x: fx(0.0),
            y: fx(1.0),
            z: fx(0.5),
        }
    );
}

#[test]
fn normalize_zero_vector_stays_zero() {
    let zero = Vector { x: 0, y: 0, z: 0 };
    assert_eq!(zero.normalize(), zero);
    assert_eq!(zero.length(), 0);
}

#[test]
fn normalize_keeps_unit_length() {
    let cases = [
        (1.0, 2.0, 3.0),
        (0.3, -0.4, 0.5),
        (10.0, 20.0, -5.0),
        (100.0, 0.5, 0.25),
    ];
    for &(x, y, z) in cases.iter() {
        let v = Vector {
            x: fx(x),
            y: fx(y),
            z: fx(z),
        };
        let len = v.normalize().length();
        assert!(
            -5 <= len - SCALE && len - SCALE <= 2,
            "normalized length {} for ({}, {}, {})",
            len,
            x,
            y,
            z
        );
    }
}
