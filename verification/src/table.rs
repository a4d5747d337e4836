//! The prefix lookup table: a static mapping from a numeric calling-code
//! prefix, read as the leading decimal digits of a phone number, to the
//! territory it is assigned to. Entries range from one digit up to seven;
//! entries of different lengths may nest, and the resolution engine in
//! [`crate::resolve`] gives the longest one precedence.

use vstd::prelude::*;

use crate::territory::TerritoryCode;

verus! {

/// North American Numbering Plan entries below 1610: the shared `1` calling
/// code followed by a three-digit area code.
pub open spec fn nanp_low_spec(prefix: nat) -> Option<TerritoryCode> {
    if prefix == 1201 {
        Some(TerritoryCode::US)
    } else if prefix == 1202 {
        Some(TerritoryCode::US)
    } else if prefix == 1203 {
        Some(TerritoryCode::US)
    } else if prefix == 1204 {
        Some(TerritoryCode::CA)
    } else if prefix == 1205 {
        Some(TerritoryCode::US)
    } else if prefix == 1206 {
        Some(TerritoryCode::US)
    } else if prefix == 1207 {
        Some(TerritoryCode::US)
    } else if prefix == 1208 {
        Some(TerritoryCode::US)
    } else if prefix == 1209 {
        Some(TerritoryCode::US)
    } else if prefix == 1210 {
        Some(TerritoryCode::US)
    } else if prefix == 1212 {
        Some(TerritoryCode::US)
    } else if prefix == 1213 {
        Some(TerritoryCode::US)
    } else if prefix == 1214 {
        Some(TerritoryCode::US)
    } else if prefix == 1215 {
        Some(TerritoryCode::US)
    } else if prefix == 1216 {
        Some(TerritoryCode::US)
    } else if prefix == 1217 {
        Some(TerritoryCode::US)
    } else if prefix == 1218 {
        Some(TerritoryCode::US)
    } else if prefix == 1219 {
        Some(TerritoryCode::US)
    } else if prefix == 1224 {
        Some(TerritoryCode::US)
    } else if prefix == 1225 {
        Some(TerritoryCode::US)
    } else if prefix == 1226 {
        Some(TerritoryCode::CA)
    } else if prefix == 1228 {
        Some(TerritoryCode::US)
    } else if prefix == 1229 {
        Some(TerritoryCode::US)
    } else if prefix == 1231 {
        Some(TerritoryCode::US)
    } else if prefix == 1234 {
        Some(TerritoryCode::US)
    } else if prefix == 1236 {
        Some(TerritoryCode::CA)
    } else if prefix == 1239 {
        Some(TerritoryCode::US)
    } else if prefix == 1240 {
        Some(TerritoryCode::US)
    } else if prefix == 1242 {
        Some(TerritoryCode::BS)
    } else if prefix == 1246 {
        Some(TerritoryCode::BB)
    } else if prefix == 1248 {
        Some(TerritoryCode::US)
    } else if prefix == 1249 {
        Some(TerritoryCode::CA)
    } else if prefix == 1250 {
        Some(TerritoryCode::CA)
    } else if prefix == 1251 {
        Some(TerritoryCode::US)
    } else if prefix == 1252 {
        Some(TerritoryCode::US)
    } else if prefix == 1253 {
        Some(TerritoryCode::US)
    } else if prefix == 1254 {
        Some(TerritoryCode::US)
    } else if prefix == 1256 {
        Some(TerritoryCode::US)
    } else if prefix == 1260 {
        Some(TerritoryCode::US)
    } else if prefix == 1262 {
        Some(TerritoryCode::US)
    } else if prefix == 1264 {
        Some(TerritoryCode::AI)
    } else if prefix == 1267 {
        Some(TerritoryCode::US)
    } else if prefix == 1268 {
        Some(TerritoryCode::AG)
    } else if prefix == 1269 {
        Some(TerritoryCode::US)
    } else if prefix == 1270 {
        Some(TerritoryCode::US)
    } else if prefix == 1272 {
        Some(TerritoryCode::US)
    } else if prefix == 1274 {
        Some(TerritoryCode::US)
    } else if prefix == 1276 {
        Some(TerritoryCode::US)
    } else if prefix == 1281 {
        Some(TerritoryCode::US)
    } else if prefix == 1284 {
        Some(TerritoryCode::VG)
    } else if prefix == 1289 {
        Some(TerritoryCode::CA)
    } else if prefix == 1301 {
        Some(TerritoryCode::US)
    } else if prefix == 1302 {
        Some(TerritoryCode::US)
    } else if prefix == 1303 {
        Some(TerritoryCode::US)
    } else if prefix == 1304 {
        Some(TerritoryCode::US)
    } else if prefix == 1305 {
        Some(TerritoryCode::US)
    } else if prefix == 1306 {
        Some(TerritoryCode::CA)
    } else if prefix == 1307 {
        Some(TerritoryCode::US)
    } else if prefix == 1308 {
        Some(TerritoryCode::US)
    } else if prefix == 1309 {
        Some(TerritoryCode::US)
    } else if prefix == 1310 {
        Some(TerritoryCode::US)
    } else if prefix == 1312 {
        Some(TerritoryCode::US)
    } else if prefix == 1313 {
        Some(TerritoryCode::US)
    } else if prefix == 1314 {
        Some(TerritoryCode::US)
    } else if prefix == 1315 {
        Some(TerritoryCode::US)
    } else if prefix == 1316 {
        Some(TerritoryCode::US)
    } else if prefix == 1317 {
        Some(TerritoryCode::US)
    } else if prefix == 1318 {
        Some(TerritoryCode::US)
    } else if prefix == 1319 {
        Some(TerritoryCode::US)
    } else if prefix == 1320 {
        Some(TerritoryCode::US)
    } else if prefix == 1321 {
        Some(TerritoryCode::US)
    } else if prefix == 1323 {
        Some(TerritoryCode::US)
    } else if prefix == 1325 {
        Some(TerritoryCode::US)
    } else if prefix == 1330 {
        Some(TerritoryCode::US)
    } else if prefix == 1331 {
        Some(TerritoryCode::US)
    } else if prefix == 1334 {
        Some(TerritoryCode::US)
    } else if prefix == 1336 {
        Some(TerritoryCode::US)
    } else if prefix == 1337 {
        Some(TerritoryCode::US)
    } else if prefix == 1339 {
        Some(TerritoryCode::US)
    } else if prefix == 1340 {
        Some(TerritoryCode::VI)
    } else if prefix == 1343 {
        Some(TerritoryCode::CA)
    } else if prefix == 1345 {
        Some(TerritoryCode::KY)
    } else if prefix == 1346 {
        Some(TerritoryCode::US)
    } else if prefix == 1347 {
        Some(TerritoryCode::US)
    } else if prefix == 1351 {
        Some(TerritoryCode::US)
    } else if prefix == 1352 {
        Some(TerritoryCode::US)
    } else if prefix == 1360 {
        Some(TerritoryCode::US)
    } else if prefix == 1361 {
        Some(TerritoryCode::US)
    } else if prefix == 1364 {
        Some(TerritoryCode::US)
    } else if prefix == 1365 {
        Some(TerritoryCode::CA)
    } else if prefix == 1385 {
        Some(TerritoryCode::US)
    } else if prefix == 1386 {
        Some(TerritoryCode::US)
    } else if prefix == 1401 {
        Some(TerritoryCode::US)
    } else if prefix == 1402 {
        Some(TerritoryCode::US)
    } else if prefix == 1403 {
        Some(TerritoryCode::CA)
    } else if prefix == 1404 {
        Some(TerritoryCode::US)
    } else if prefix == 1405 {
        Some(TerritoryCode::US)
    } else if prefix == 1406 {
        Some(TerritoryCode::US)
    } else if prefix == 1407 {
        Some(TerritoryCode::US)
    } else if prefix == 1408 {
        Some(TerritoryCode::US)
    } else if prefix == 1409 {
        Some(TerritoryCode::US)
    } else if prefix == 1410 {
        Some(TerritoryCode::US)
    } else if prefix == 1412 {
        Some(TerritoryCode::US)
    } else if prefix == 1413 {
        Some(TerritoryCode::US)
    } else if prefix == 1414 {
        Some(TerritoryCode::US)
    } else if prefix == 1415 {
        Some(TerritoryCode::US)
    } else if prefix == 1416 {
        Some(TerritoryCode::CA)
    } else if prefix == 1417 {
        Some(TerritoryCode::US)
    } else if prefix == 1418 {
        Some(TerritoryCode::CA)
    } else if prefix == 1419 {
        Some(TerritoryCode::US)
    } else if prefix == 1423 {
        Some(TerritoryCode::US)
    } else if prefix == 1424 {
        Some(TerritoryCode::US)
    } else if prefix == 1425 {
        Some(TerritoryCode::US)
    } else if prefix == 1430 {
        Some(TerritoryCode::US)
    } else if prefix == 1431 {
        Some(TerritoryCode::CA)
    } else if prefix == 1432 {
        Some(TerritoryCode::US)
    } else if prefix == 1434 {
        Some(TerritoryCode::US)
    } else if prefix == 1435 {
        Some(TerritoryCode::US)
    } else if prefix == 1437 {
        Some(TerritoryCode::CA)
    } else if prefix == 1438 {
        Some(TerritoryCode::CA)
    } else if prefix == 1440 {
        Some(TerritoryCode::US)
    } else if prefix == 1441 {
        Some(TerritoryCode::BM)
    } else if prefix == 1442 {
        Some(TerritoryCode::US)
    } else if prefix == 1443 {
        Some(TerritoryCode::US)
    } else if prefix == 1450 {
        Some(TerritoryCode::CA)
    } else if prefix == 1457 {
        Some(TerritoryCode::CA)
    } else if prefix == 1458 {
        Some(TerritoryCode::US)
    } else if prefix == 1469 {
        Some(TerritoryCode::US)
    } else if prefix == 1470 {
        Some(TerritoryCode::US)
    } else if prefix == 1473 {
        Some(TerritoryCode::GD)
    } else if prefix == 1475 {
        Some(TerritoryCode::US)
    } else if prefix == 1478 {
        Some(TerritoryCode::US)
    } else if prefix == 1479 {
        Some(TerritoryCode::US)
    } else if prefix == 1480 {
        Some(TerritoryCode::US)
    } else if prefix == 1484 {
        Some(TerritoryCode::US)
    } else if prefix == 1500 {
        Some(TerritoryCode::US)
    } else if prefix == 1501 {
        Some(TerritoryCode::US)
    } else if prefix == 1502 {
        Some(TerritoryCode::US)
    } else if prefix == 1503 {
        Some(TerritoryCode::US)
    } else if prefix == 1504 {
        Some(TerritoryCode::US)
    } else if prefix == 1505 {
        Some(TerritoryCode::US)
    } else if prefix == 1506 {
        Some(TerritoryCode::CA)
    } else if prefix == 1507 {
        Some(TerritoryCode::US)
    } else if prefix == 1508 {
        Some(TerritoryCode::US)
    } else if prefix == 1509 {
        Some(TerritoryCode::US)
    } else if prefix == 1510 {
        Some(TerritoryCode::US)
    } else if prefix == 1512 {
        Some(TerritoryCode::US)
    } else if prefix == 1513 {
        Some(TerritoryCode::US)
    } else if prefix == 1514 {
        Some(TerritoryCode::CA)
    } else if prefix == 1515 {
        Some(TerritoryCode::US)
    } else if prefix == 1516 {
        Some(TerritoryCode::US)
    } else if prefix == 1517 {
        Some(TerritoryCode::US)
    } else if prefix == 1518 {
        Some(TerritoryCode::US)
    } else if prefix == 1519 {
        Some(TerritoryCode::CA)
    } else if prefix == 1520 {
        Some(TerritoryCode::US)
    } else if prefix == 1530 {
        Some(TerritoryCode::US)
    } else if prefix == 1531 {
        Some(TerritoryCode::US)
    } else if prefix == 1533 {
        Some(TerritoryCode::US)
    } else if prefix == 1534 {
        Some(TerritoryCode::US)
    } else if prefix == 1539 {
        Some(TerritoryCode::US)
    } else if prefix == 1540 {
        Some(TerritoryCode::US)
    } else if prefix == 1541 {
        Some(TerritoryCode::US)
    } else if prefix == 1544 {
        Some(TerritoryCode::US)
    } else if prefix == 1551 {
        Some(TerritoryCode::US)
    } else if prefix == 1559 {
        Some(TerritoryCode::US)
    } else if prefix == 1561 {
        Some(TerritoryCode::US)
    } else if prefix == 1562 {
        Some(TerritoryCode::US)
    } else if prefix == 1563 {
        Some(TerritoryCode::US)
    } else if prefix == 1566 {
        Some(TerritoryCode::US)
    } else if prefix == 1567 {
        Some(TerritoryCode::US)
    } else if prefix == 1570 {
        Some(TerritoryCode::US)
    } else if prefix == 1571 {
        Some(TerritoryCode::US)
    } else if prefix == 1573 {
        Some(TerritoryCode::US)
    } else if prefix == 1574 {
        Some(TerritoryCode::US)
    } else if prefix == 1575 {
        Some(TerritoryCode::US)
    } else if prefix == 1577 {
        Some(TerritoryCode::US)
    } else if prefix == 1579 {
        Some(TerritoryCode::CA)
    } else if prefix == 1580 {
        Some(TerritoryCode::US)
    } else if prefix == 1581 {
        Some(TerritoryCode::CA)
    } else if prefix == 1585 {
        Some(TerritoryCode::US)
    } else if prefix == 1586 {
        Some(TerritoryCode::US)
    } else if prefix == 1587 {
        Some(TerritoryCode::CA)
    } else if prefix == 1600 {
        Some(TerritoryCode::CA)
    } else if prefix == 1601 {
        Some(TerritoryCode::US)
    } else if prefix == 1602 {
        Some(TerritoryCode::US)
    } else if prefix == 1603 {
        Some(TerritoryCode::US)
    } else if prefix == 1604 {
        Some(TerritoryCode::CA)
    } else if prefix == 1605 {
        Some(TerritoryCode::US)
    } else if prefix == 1606 {
        Some(TerritoryCode::US)
    } else if prefix == 1607 {
        Some(TerritoryCode::US)
    } else if prefix == 1608 {
        Some(TerritoryCode::US)
    } else if prefix == 1609 {
        Some(TerritoryCode::US)
    } else {
        None
    }
}

/// North American Numbering Plan entries from 1610 up: the shared `1`
/// calling code followed by a three-digit area code.
pub open spec fn nanp_high_spec(prefix: nat) -> Option<TerritoryCode> {
    if prefix == 1610 {
        Some(TerritoryCode::US)
    } else if prefix == 1612 {
        Some(TerritoryCode::US)
    } else if prefix == 1613 {
        Some(TerritoryCode::CA)
    } else if prefix == 1614 {
        Some(TerritoryCode::US)
    } else if prefix == 1615 {
        Some(TerritoryCode::US)
    } else if prefix == 1616 {
        Some(TerritoryCode::US)
    } else if prefix == 1617 {
        Some(TerritoryCode::US)
    } else if prefix == 1618 {
        Some(TerritoryCode::US)
    } else if prefix == 1619 {
        Some(TerritoryCode::US)
    } else if prefix == 1620 {
        Some(TerritoryCode::US)
    } else if prefix == 1623 {
        Some(TerritoryCode::US)
    } else if prefix == 1626 {
        Some(TerritoryCode::US)
    } else if prefix == 1628 {
        Some(TerritoryCode::US)
    } else if prefix == 1629 {
        Some(TerritoryCode::US)
    } else if prefix == 1630 {
        Some(TerritoryCode::US)
    } else if prefix == 1631 {
        Some(TerritoryCode::US)
    } else if prefix == 1636 {
        Some(TerritoryCode::US)
    } else if prefix == 1639 {
        Some(TerritoryCode::CA)
    } else if prefix == 1641 {
        Some(TerritoryCode::US)
    } else if prefix == 1646 {
        Some(TerritoryCode::US)
    } else if prefix == 1647 {
        Some(TerritoryCode::CA)
    } else if prefix == 1649 {
        Some(TerritoryCode::TC)
    } else if prefix == 1650 {
        Some(TerritoryCode::US)
    } else if prefix == 1651 {
        Some(TerritoryCode::US)
    } else if prefix == 1657 {
        Some(TerritoryCode::US)
    } else if prefix == 1660 {
        Some(TerritoryCode::US)
    } else if prefix == 1661 {
        Some(TerritoryCode::US)
    } else if prefix == 1662 {
        Some(TerritoryCode::US)
    } else if prefix == 1664 {
        Some(TerritoryCode::MS)
    } else if prefix == 1667 {
        Some(TerritoryCode::US)
    } else if prefix == 1669 {
        Some(TerritoryCode::US)
    } else if prefix == 1670 {
        Some(TerritoryCode::MP)
    } else if prefix == 1671 {
        Some(TerritoryCode::GU)
    } else if prefix == 1678 {
        Some(TerritoryCode::US)
    } else if prefix == 1681 {
        Some(TerritoryCode::US)
    } else if prefix == 1682 {
        Some(TerritoryCode::US)
    } else if prefix == 1684 {
        Some(TerritoryCode::AS)
    } else if prefix == 1700 {
        Some(TerritoryCode::US)
    } else if prefix == 1701 {
        Some(TerritoryCode::US)
    } else if prefix == 1702 {
        Some(TerritoryCode::US)
    } else if prefix == 1703 {
        Some(TerritoryCode::US)
    } else if prefix == 1704 {
        Some(TerritoryCode::US)
    } else if prefix == 1705 {
        Some(TerritoryCode::CA)
    } else if prefix == 1706 {
        Some(TerritoryCode::US)
    } else if prefix == 1707 {
        Some(TerritoryCode::US)
    } else if prefix == 1708 {
        Some(TerritoryCode::US)
    } else if prefix == 1709 {
        Some(TerritoryCode::CA)
    } else if prefix == 1710 {
        Some(TerritoryCode::US)
    } else if prefix == 1712 {
        Some(TerritoryCode::US)
    } else if prefix == 1713 {
        Some(TerritoryCode::US)
    } else if prefix == 1714 {
        Some(TerritoryCode::US)
    } else if prefix == 1715 {
        Some(TerritoryCode::US)
    } else if prefix == 1716 {
        Some(TerritoryCode::US)
    } else if prefix == 1717 {
        Some(TerritoryCode::US)
    } else if prefix == 1718 {
        Some(TerritoryCode::US)
    } else if prefix == 1719 {
        Some(TerritoryCode::US)
    } else if prefix == 1720 {
        Some(TerritoryCode::US)
    } else if prefix == 1721 {
        Some(TerritoryCode::SX)
    } else if prefix == 1724 {
        Some(TerritoryCode::US)
    } else if prefix == 1725 {
        Some(TerritoryCode::US)
    } else if prefix == 1727 {
        Some(TerritoryCode::US)
    } else if prefix == 1731 {
        Some(TerritoryCode::US)
    } else if prefix == 1732 {
        Some(TerritoryCode::US)
    } else if prefix == 1734 {
        Some(TerritoryCode::US)
    } else if prefix == 1737 {
        Some(TerritoryCode::US)
    } else if prefix == 1740 {
        Some(TerritoryCode::US)
    } else if prefix == 1747 {
        Some(TerritoryCode::US)
    } else if prefix == 1754 {
        Some(TerritoryCode::US)
    } else if prefix == 1757 {
        Some(TerritoryCode::US)
    } else if prefix == 1758 {
        Some(TerritoryCode::LC)
    } else if prefix == 1760 {
        Some(TerritoryCode::US)
    } else if prefix == 1762 {
        Some(TerritoryCode::US)
    } else if prefix == 1763 {
        Some(TerritoryCode::US)
    } else if prefix == 1765 {
        Some(TerritoryCode::US)
    } else if prefix == 1767 {
        Some(TerritoryCode::DM)
    } else if prefix == 1769 {
        Some(TerritoryCode::US)
    } else if prefix == 1770 {
        Some(TerritoryCode::US)
    } else if prefix == 1772 {
        Some(TerritoryCode::US)
    } else if prefix == 1773 {
        Some(TerritoryCode::US)
    } else if prefix == 1774 {
        Some(TerritoryCode::US)
    } else if prefix == 1775 {
        Some(TerritoryCode::US)
    } else if prefix == 1778 {
        Some(TerritoryCode::CA)
    } else if prefix == 1779 {
        Some(TerritoryCode::US)
    } else if prefix == 1780 {
        Some(TerritoryCode::CA)
    } else if prefix == 1781 {
        Some(TerritoryCode::US)
    } else if prefix == 1782 {
        Some(TerritoryCode::CA)
    } else if prefix == 1784 {
        Some(TerritoryCode::VC)
    } else if prefix == 1785 {
        Some(TerritoryCode::US)
    } else if prefix == 1786 {
        Some(TerritoryCode::US)
    } else if prefix == 1787 {
        Some(TerritoryCode::PR)
    } else if prefix == 1800 {
        Some(TerritoryCode::US)
    } else if prefix == 1801 {
        Some(TerritoryCode::US)
    } else if prefix == 1802 {
        Some(TerritoryCode::US)
    } else if prefix == 1803 {
        Some(TerritoryCode::US)
    } else if prefix == 1804 {
        Some(TerritoryCode::US)
    } else if prefix == 1805 {
        Some(TerritoryCode::US)
    } else if prefix == 1806 {
        Some(TerritoryCode::US)
    } else if prefix == 1807 {
        Some(TerritoryCode::CA)
    } else if prefix == 1808 {
        Some(TerritoryCode::US)
    } else if prefix == 1809 {
        Some(TerritoryCode::DO)
    } else if prefix == 1810 {
        Some(TerritoryCode::US)
    } else if prefix == 1812 {
        Some(TerritoryCode::US)
    } else if prefix == 1813 {
        Some(TerritoryCode::US)
    } else if prefix == 1814 {
        Some(TerritoryCode::US)
    } else if prefix == 1815 {
        Some(TerritoryCode::US)
    } else if prefix == 1816 {
        Some(TerritoryCode::US)
    } else if prefix == 1817 {
        Some(TerritoryCode::US)
    } else if prefix == 1818 {
        Some(TerritoryCode::US)
    } else if prefix == 1819 {
        Some(TerritoryCode::CA)
    } else if prefix == 1825 {
        Some(TerritoryCode::CA)
    } else if prefix == 1828 {
        Some(TerritoryCode::US)
    } else if prefix == 1829 {
        Some(TerritoryCode::DO)
    } else if prefix == 1830 {
        Some(TerritoryCode::US)
    } else if prefix == 1831 {
        Some(TerritoryCode::US)
    } else if prefix == 1832 {
        Some(TerritoryCode::US)
    } else if prefix == 1843 {
        Some(TerritoryCode::US)
    } else if prefix == 1844 {
        Some(TerritoryCode::US)
    } else if prefix == 1845 {
        Some(TerritoryCode::US)
    } else if prefix == 1847 {
        Some(TerritoryCode::US)
    } else if prefix == 1848 {
        Some(TerritoryCode::US)
    } else if prefix == 1849 {
        Some(TerritoryCode::DO)
    } else if prefix == 1850 {
        Some(TerritoryCode::US)
    } else if prefix == 1855 {
        Some(TerritoryCode::US)
    } else if prefix == 1856 {
        Some(TerritoryCode::US)
    } else if prefix == 1857 {
        Some(TerritoryCode::US)
    } else if prefix == 1858 {
        Some(TerritoryCode::US)
    } else if prefix == 1859 {
        Some(TerritoryCode::US)
    } else if prefix == 1860 {
        Some(TerritoryCode::US)
    } else if prefix == 1862 {
        Some(TerritoryCode::US)
    } else if prefix == 1863 {
        Some(TerritoryCode::US)
    } else if prefix == 1864 {
        Some(TerritoryCode::US)
    } else if prefix == 1865 {
        Some(TerritoryCode::US)
    } else if prefix == 1866 {
        Some(TerritoryCode::US)
    } else if prefix == 1867 {
        Some(TerritoryCode::CA)
    } else if prefix == 1868 {
        Some(TerritoryCode::TT)
    } else if prefix == 1869 {
        Some(TerritoryCode::KN)
    } else if prefix == 1870 {
        Some(TerritoryCode::US)
    } else if prefix == 1872 {
        Some(TerritoryCode::US)
    } else if prefix == 1873 {
        Some(TerritoryCode::CA)
    } else if prefix == 1876 {
        Some(TerritoryCode::JM)
    } else if prefix == 1877 {
        Some(TerritoryCode::US)
    } else if prefix == 1878 {
        Some(TerritoryCode::US)
    } else if prefix == 1888 {
        Some(TerritoryCode::US)
    } else if prefix == 1900 {
        Some(TerritoryCode::US)
    } else if prefix == 1901 {
        Some(TerritoryCode::US)
    } else if prefix == 1902 {
        Some(TerritoryCode::CA)
    } else if prefix == 1903 {
        Some(TerritoryCode::US)
    } else if prefix == 1904 {
        Some(TerritoryCode::US)
    } else if prefix == 1905 {
        Some(TerritoryCode::CA)
    } else if prefix == 1906 {
        Some(TerritoryCode::US)
    } else if prefix == 1907 {
        Some(TerritoryCode::US)
    } else if prefix == 1908 {
        Some(TerritoryCode::US)
    } else if prefix == 1909 {
        Some(TerritoryCode::US)
    } else if prefix == 1910 {
        Some(TerritoryCode::US)
    } else if prefix == 1912 {
        Some(TerritoryCode::US)
    } else if prefix == 1913 {
        Some(TerritoryCode::US)
    } else if prefix == 1914 {
        Some(TerritoryCode::US)
    } else if prefix == 1915 {
        Some(TerritoryCode::US)
    } else if prefix == 1916 {
        Some(TerritoryCode::US)
    } else if prefix == 1917 {
        Some(TerritoryCode::US)
    } else if prefix == 1918 {
        Some(TerritoryCode::US)
    } else if prefix == 1919 {
        Some(TerritoryCode::US)
    } else if prefix == 1920 {
        Some(TerritoryCode::US)
    } else if prefix == 1925 {
        Some(TerritoryCode::US)
    } else if prefix == 1928 {
        Some(TerritoryCode::US)
    } else if prefix == 1929 {
        Some(TerritoryCode::US)
    } else if prefix == 1930 {
        Some(TerritoryCode::US)
    } else if prefix == 1931 {
        Some(TerritoryCode::US)
    } else if prefix == 1935 {
        Some(TerritoryCode::US)
    } else if prefix == 1936 {
        Some(TerritoryCode::US)
    } else if prefix == 1937 {
        Some(TerritoryCode::US)
    } else if prefix == 1938 {
        Some(TerritoryCode::US)
    } else if prefix == 1939 {
        Some(TerritoryCode::PR)
    } else if prefix == 1940 {
        Some(TerritoryCode::US)
    } else if prefix == 1941 {
        Some(TerritoryCode::US)
    } else if prefix == 1947 {
        Some(TerritoryCode::US)
    } else if prefix == 1949 {
        Some(TerritoryCode::US)
    } else if prefix == 1951 {
        Some(TerritoryCode::US)
    } else if prefix == 1952 {
        Some(TerritoryCode::US)
    } else if prefix == 1954 {
        Some(TerritoryCode::US)
    } else if prefix == 1956 {
        Some(TerritoryCode::US)
    } else if prefix == 1959 {
        Some(TerritoryCode::US)
    } else if prefix == 1970 {
        Some(TerritoryCode::US)
    } else if prefix == 1971 {
        Some(TerritoryCode::US)
    } else if prefix == 1972 {
        Some(TerritoryCode::US)
    } else if prefix == 1973 {
        Some(TerritoryCode::US)
    } else if prefix == 1978 {
        Some(TerritoryCode::US)
    } else if prefix == 1979 {
        Some(TerritoryCode::US)
    } else if prefix == 1980 {
        Some(TerritoryCode::US)
    } else if prefix == 1984 {
        Some(TerritoryCode::US)
    } else if prefix == 1985 {
        Some(TerritoryCode::US)
    } else if prefix == 1989 {
        Some(TerritoryCode::US)
    } else {
        None
    }
}

/// Prefixes of one to three digits: most of the world's calling codes.
pub open spec fn short_prefix_spec(prefix: nat) -> Option<TerritoryCode> {
    if prefix == 7 {
        Some(TerritoryCode::RU)
    } else if prefix == 20 {
        Some(TerritoryCode::EG)
    } else if prefix == 27 {
        Some(TerritoryCode::ZA)
    } else if prefix == 30 {
        Some(TerritoryCode::GR)
    } else if prefix == 31 {
        Some(TerritoryCode::NL)
    } else if prefix == 32 {
        Some(TerritoryCode::BE)
    } else if prefix == 33 {
        Some(TerritoryCode::FR)
    } else if prefix == 34 {
        Some(TerritoryCode::ES)
    } else if prefix == 36 {
        Some(TerritoryCode::HU)
    } else if prefix == 39 {
        Some(TerritoryCode::IT)
    } else if prefix == 40 {
        Some(TerritoryCode::RO)
    } else if prefix == 41 {
        Some(TerritoryCode::CH)
    } else if prefix == 43 {
        Some(TerritoryCode::AT)
    } else if prefix == 44 {
        Some(TerritoryCode::GB)
    } else if prefix == 45 {
        Some(TerritoryCode::DK)
    } else if prefix == 46 {
        Some(TerritoryCode::SE)
    } else if prefix == 47 {
        Some(TerritoryCode::NO)
    } else if prefix == 48 {
        Some(TerritoryCode::PL)
    } else if prefix == 49 {
        Some(TerritoryCode::DE)
    } else if prefix == 51 {
        Some(TerritoryCode::PE)
    } else if prefix == 52 {
        Some(TerritoryCode::MX)
    } else if prefix == 53 {
        Some(TerritoryCode::CU)
    } else if prefix == 54 {
        Some(TerritoryCode::AR)
    } else if prefix == 55 {
        Some(TerritoryCode::BR)
    } else if prefix == 56 {
        Some(TerritoryCode::CL)
    } else if prefix == 57 {
        Some(TerritoryCode::CO)
    } else if prefix == 58 {
        Some(TerritoryCode::VE)
    } else if prefix == 60 {
        Some(TerritoryCode::MY)
    } else if prefix == 61 {
        Some(TerritoryCode::AU)
    } else if prefix == 62 {
        Some(TerritoryCode::ID)
    } else if prefix == 63 {
        Some(TerritoryCode::PH)
    } else if prefix == 64 {
        Some(TerritoryCode::NZ)
    } else if prefix == 65 {
        Some(TerritoryCode::SG)
    } else if prefix == 66 {
        Some(TerritoryCode::TH)
    } else if prefix == 76 {
        Some(TerritoryCode::KZ)
    } else if prefix == 77 {
        Some(TerritoryCode::KZ)
    } else if prefix == 81 {
        Some(TerritoryCode::JP)
    } else if prefix == 82 {
        Some(TerritoryCode::KR)
    } else if prefix == 84 {
        Some(TerritoryCode::VN)
    } else if prefix == 86 {
        Some(TerritoryCode::CN)
    } else if prefix == 90 {
        Some(TerritoryCode::TR)
    } else if prefix == 91 {
        Some(TerritoryCode::IN)
    } else if prefix == 92 {
        Some(TerritoryCode::PK)
    } else if prefix == 93 {
        Some(TerritoryCode::AF)
    } else if prefix == 94 {
        Some(TerritoryCode::LK)
    } else if prefix == 95 {
        Some(TerritoryCode::MM)
    } else if prefix == 98 {
        Some(TerritoryCode::IR)
    } else if prefix == 211 {
        Some(TerritoryCode::SS)
    } else if prefix == 212 {
        Some(TerritoryCode::MA)
    } else if prefix == 213 {
        Some(TerritoryCode::DZ)
    } else if prefix == 216 {
        Some(TerritoryCode::TN)
    } else if prefix == 218 {
        Some(TerritoryCode::LY)
    } else if prefix == 220 {
        Some(TerritoryCode::GM)
    } else if prefix == 221 {
        Some(TerritoryCode::SN)
    } else if prefix == 222 {
        Some(TerritoryCode::MR)
    } else if prefix == 223 {
        Some(TerritoryCode::ML)
    } else if prefix == 224 {
        Some(TerritoryCode::GN)
    } else if prefix == 225 {
        Some(TerritoryCode::CI)
    } else if prefix == 226 {
        Some(TerritoryCode::BF)
    } else if prefix == 227 {
        Some(TerritoryCode::NE)
    } else if prefix == 228 {
        Some(TerritoryCode::TG)
    } else if prefix == 229 {
        Some(TerritoryCode::BJ)
    } else if prefix == 230 {
        Some(TerritoryCode::MU)
    } else if prefix == 231 {
        Some(TerritoryCode::LR)
    } else if prefix == 232 {
        Some(TerritoryCode::SL)
    } else if prefix == 233 {
        Some(TerritoryCode::GH)
    } else if prefix == 234 {
        Some(TerritoryCode::NG)
    } else if prefix == 235 {
        Some(TerritoryCode::TD)
    } else if prefix == 236 {
        Some(TerritoryCode::CF)
    } else if prefix == 237 {
        Some(TerritoryCode::CM)
    } else if prefix == 238 {
        Some(TerritoryCode::CV)
    } else if prefix == 239 {
        Some(TerritoryCode::ST)
    } else if prefix == 240 {
        Some(TerritoryCode::GQ)
    } else if prefix == 241 {
        Some(TerritoryCode::GA)
    } else if prefix == 242 {
        Some(TerritoryCode::CG)
    } else if prefix == 243 {
        Some(TerritoryCode::CD)
    } else if prefix == 244 {
        Some(TerritoryCode::AO)
    } else if prefix == 245 {
        Some(TerritoryCode::GW)
    } else if prefix == 246 {
        Some(TerritoryCode::IO)
    } else if prefix == 247 {
        Some(TerritoryCode::AC)
    } else if prefix == 248 {
        Some(TerritoryCode::SC)
    } else if prefix == 249 {
        Some(TerritoryCode::SD)
    } else if prefix == 250 {
        Some(TerritoryCode::RW)
    } else if prefix == 251 {
        Some(TerritoryCode::ET)
    } else if prefix == 252 {
        Some(TerritoryCode::SO)
    } else if prefix == 253 {
        Some(TerritoryCode::DJ)
    } else if prefix == 254 {
        Some(TerritoryCode::KE)
    } else if prefix == 255 {
        Some(TerritoryCode::TZ)
    } else if prefix == 256 {
        Some(TerritoryCode::UG)
    } else if prefix == 257 {
        Some(TerritoryCode::BI)
    } else if prefix == 258 {
        Some(TerritoryCode::MZ)
    } else if prefix == 260 {
        Some(TerritoryCode::ZM)
    } else if prefix == 261 {
        Some(TerritoryCode::MG)
    } else if prefix == 262 {
        Some(TerritoryCode::RE)
    } else if prefix == 263 {
        Some(TerritoryCode::ZW)
    } else if prefix == 264 {
        Some(TerritoryCode::NA)
    } else if prefix == 265 {
        Some(TerritoryCode::MW)
    } else if prefix == 266 {
        Some(TerritoryCode::LS)
    } else if prefix == 267 {
        Some(TerritoryCode::BW)
    } else if prefix == 268 {
        Some(TerritoryCode::SZ)
    } else if prefix == 269 {
        Some(TerritoryCode::KM)
    } else if prefix == 290 {
        Some(TerritoryCode::SH)
    } else if prefix == 291 {
        Some(TerritoryCode::ER)
    } else if prefix == 297 {
        Some(TerritoryCode::AW)
    } else if prefix == 298 {
        Some(TerritoryCode::FO)
    } else if prefix == 299 {
        Some(TerritoryCode::GL)
    } else if prefix == 350 {
        Some(TerritoryCode::GI)
    } else if prefix == 351 {
        Some(TerritoryCode::PT)
    } else if prefix == 352 {
        Some(TerritoryCode::LU)
    } else if prefix == 353 {
        Some(TerritoryCode::IE)
    } else if prefix == 354 {
        Some(TerritoryCode::IS)
    } else if prefix == 355 {
        Some(TerritoryCode::AL)
    } else if prefix == 356 {
        Some(TerritoryCode::MT)
    } else if prefix == 357 {
        Some(TerritoryCode::CY)
    } else if prefix == 358 {
        Some(TerritoryCode::FI)
    } else if prefix == 359 {
        Some(TerritoryCode::BG)
    } else if prefix == 370 {
        Some(TerritoryCode::LT)
    } else if prefix == 371 {
        Some(TerritoryCode::LV)
    } else if prefix == 372 {
        Some(TerritoryCode::EE)
    } else if prefix == 373 {
        Some(TerritoryCode::MD)
    } else if prefix == 374 {
        Some(TerritoryCode::AM)
    } else if prefix == 375 {
        Some(TerritoryCode::BY)
    } else if prefix == 376 {
        Some(TerritoryCode::AD)
    } else if prefix == 377 {
        Some(TerritoryCode::MC)
    } else if prefix == 378 {
        Some(TerritoryCode::SM)
    } else if prefix == 379 {
        Some(TerritoryCode::VA)
    } else if prefix == 380 {
        Some(TerritoryCode::UA)
    } else if prefix == 381 {
        Some(TerritoryCode::RS)
    } else if prefix == 382 {
        Some(TerritoryCode::ME)
    } else if prefix == 385 {
        Some(TerritoryCode::HR)
    } else if prefix == 386 {
        Some(TerritoryCode::SI)
    } else if prefix == 387 {
        Some(TerritoryCode::BA)
    } else if prefix == 389 {
        Some(TerritoryCode::MK)
    } else if prefix == 420 {
        Some(TerritoryCode::CZ)
    } else if prefix == 421 {
        Some(TerritoryCode::SK)
    } else if prefix == 423 {
        Some(TerritoryCode::LI)
    } else if prefix == 500 {
        Some(TerritoryCode::FK)
    } else if prefix == 501 {
        Some(TerritoryCode::BZ)
    } else if prefix == 502 {
        Some(TerritoryCode::GT)
    } else if prefix == 503 {
        Some(TerritoryCode::SV)
    } else if prefix == 504 {
        Some(TerritoryCode::HN)
    } else if prefix == 505 {
        Some(TerritoryCode::NI)
    } else if prefix == 506 {
        Some(TerritoryCode::CR)
    } else if prefix == 507 {
        Some(TerritoryCode::PA)
    } else if prefix == 508 {
        Some(TerritoryCode::PM)
    } else if prefix == 509 {
        Some(TerritoryCode::HT)
    } else if prefix == 590 {
        Some(TerritoryCode::GP)
    } else if prefix == 591 {
        Some(TerritoryCode::BO)
    } else if prefix == 592 {
        Some(TerritoryCode::GY)
    } else if prefix == 593 {
        Some(TerritoryCode::EC)
    } else if prefix == 594 {
        Some(TerritoryCode::GF)
    } else if prefix == 595 {
        Some(TerritoryCode::PY)
    } else if prefix == 596 {
        Some(TerritoryCode::MQ)
    } else if prefix == 597 {
        Some(TerritoryCode::SR)
    } else if prefix == 598 {
        Some(TerritoryCode::UY)
    } else if prefix == 670 {
        Some(TerritoryCode::TL)
    } else if prefix == 673 {
        Some(TerritoryCode::BN)
    } else if prefix == 674 {
        Some(TerritoryCode::NR)
    } else if prefix == 675 {
        Some(TerritoryCode::PG)
    } else if prefix == 676 {
        Some(TerritoryCode::TO)
    } else if prefix == 677 {
        Some(TerritoryCode::SB)
    } else if prefix == 678 {
        Some(TerritoryCode::VU)
    } else if prefix == 679 {
        Some(TerritoryCode::FJ)
    } else if prefix == 680 {
        Some(TerritoryCode::PW)
    } else if prefix == 681 {
        Some(TerritoryCode::WF)
    } else if prefix == 682 {
        Some(TerritoryCode::CK)
    } else if prefix == 683 {
        Some(TerritoryCode::NU)
    } else if prefix == 685 {
        Some(TerritoryCode::WS)
    } else if prefix == 686 {
        Some(TerritoryCode::KI)
    } else if prefix == 687 {
        Some(TerritoryCode::NC)
    } else if prefix == 688 {
        Some(TerritoryCode::TV)
    } else if prefix == 689 {
        Some(TerritoryCode::PF)
    } else if prefix == 690 {
        Some(TerritoryCode::TK)
    } else if prefix == 691 {
        Some(TerritoryCode::FM)
    } else if prefix == 692 {
        Some(TerritoryCode::MH)
    } else if prefix == 800 {
        Some(TerritoryCode::XT)
    } else if prefix == 808 {
        Some(TerritoryCode::XS)
    } else if prefix == 850 {
        Some(TerritoryCode::KP)
    } else if prefix == 852 {
        Some(TerritoryCode::HK)
    } else if prefix == 853 {
        Some(TerritoryCode::MO)
    } else if prefix == 855 {
        Some(TerritoryCode::KH)
    } else if prefix == 856 {
        Some(TerritoryCode::LA)
    } else if prefix == 870 {
        Some(TerritoryCode::XN)
    } else if prefix == 878 {
        Some(TerritoryCode::XP)
    } else if prefix == 880 {
        Some(TerritoryCode::BD)
    } else if prefix == 881 {
        Some(TerritoryCode::XG)
    } else if prefix == 882 {
        Some(TerritoryCode::XV)
    } else if prefix == 883 {
        Some(TerritoryCode::XV)
    } else if prefix == 886 {
        Some(TerritoryCode::TW)
    } else if prefix == 960 {
        Some(TerritoryCode::MV)
    } else if prefix == 961 {
        Some(TerritoryCode::LB)
    } else if prefix == 962 {
        Some(TerritoryCode::JO)
    } else if prefix == 963 {
        Some(TerritoryCode::SY)
    } else if prefix == 964 {
        Some(TerritoryCode::IQ)
    } else if prefix == 965 {
        Some(TerritoryCode::KW)
    } else if prefix == 966 {
        Some(TerritoryCode::SA)
    } else if prefix == 967 {
        Some(TerritoryCode::YE)
    } else if prefix == 968 {
        Some(TerritoryCode::OM)
    } else if prefix == 970 {
        Some(TerritoryCode::PS)
    } else if prefix == 971 {
        Some(TerritoryCode::AE)
    } else if prefix == 972 {
        Some(TerritoryCode::IL)
    } else if prefix == 973 {
        Some(TerritoryCode::BH)
    } else if prefix == 974 {
        Some(TerritoryCode::QA)
    } else if prefix == 975 {
        Some(TerritoryCode::BT)
    } else if prefix == 976 {
        Some(TerritoryCode::MN)
    } else if prefix == 977 {
        Some(TerritoryCode::NP)
    } else if prefix == 992 {
        Some(TerritoryCode::TJ)
    } else if prefix == 993 {
        Some(TerritoryCode::TM)
    } else if prefix == 994 {
        Some(TerritoryCode::AZ)
    } else if prefix == 995 {
        Some(TerritoryCode::GE)
    } else if prefix == 996 {
        Some(TerritoryCode::KG)
    } else if prefix == 998 {
        Some(TerritoryCode::UZ)
    } else {
        None
    }
}

/// Prefixes of four to seven digits outside the North American plan:
/// sub-ranges carved out of a shorter prefix, such as Mayotte's ranges
/// inside 262.
pub open spec fn long_prefix_spec(prefix: nat) -> Option<TerritoryCode> {
    if prefix == 4779 {
        Some(TerritoryCode::SJ)
    } else if prefix == 5993 {
        Some(TerritoryCode::BQ)
    } else if prefix == 5994 {
        Some(TerritoryCode::BQ)
    } else if prefix == 5997 {
        Some(TerritoryCode::BQ)
    } else if prefix == 5999 {
        Some(TerritoryCode::CW)
    } else if prefix == 6721 {
        Some(TerritoryCode::AQ)
    } else if prefix == 6723 {
        Some(TerritoryCode::NF)
    } else if prefix == 35818 {
        Some(TerritoryCode::AX)
    } else if prefix == 262269 {
        Some(TerritoryCode::YT)
    } else if prefix == 262639 {
        Some(TerritoryCode::YT)
    } else if prefix == 441481 {
        Some(TerritoryCode::GG)
    } else if prefix == 441534 {
        Some(TerritoryCode::JE)
    } else if prefix == 441624 {
        Some(TerritoryCode::IM)
    } else if prefix == 6189162 {
        Some(TerritoryCode::CC)
    } else if prefix == 6189164 {
        Some(TerritoryCode::CX)
    } else {
        None
    }
}

/// The whole prefix table. Within it, no two entries of the same
/// digit-length collide; entries of different lengths may nest.
pub open spec fn lookup_spec(prefix: nat) -> Option<TerritoryCode> {
    if 1000 <= prefix < 2000 {
        if prefix < 1610 {
            nanp_low_spec(prefix)
        } else {
            nanp_high_spec(prefix)
        }
    } else if prefix < 1000 {
        short_prefix_spec(prefix)
    } else {
        long_prefix_spec(prefix)
    }
}

fn nanp_low_lookup(prefix: u64) -> (r: Option<TerritoryCode>)
    ensures
        r == nanp_low_spec(prefix as nat),
{
    match prefix {
        1201 => Some(TerritoryCode::US),
        1202 => Some(TerritoryCode::US),
        1203 => Some(TerritoryCode::US),
        1204 => Some(TerritoryCode::CA),
        1205 => Some(TerritoryCode::US),
        1206 => Some(TerritoryCode::US),
        1207 => Some(TerritoryCode::US),
        1208 => Some(TerritoryCode::US),
        1209 => Some(TerritoryCode::US),
        1210 => Some(TerritoryCode::US),
        1212 => Some(TerritoryCode::US),
        1213 => Some(TerritoryCode::US),
        1214 => Some(TerritoryCode::US),
        1215 => Some(TerritoryCode::US),
        1216 => Some(TerritoryCode::US),
        1217 => Some(TerritoryCode::US),
        1218 => Some(TerritoryCode::US),
        1219 => Some(TerritoryCode::US),
        1224 => Some(TerritoryCode::US),
        1225 => Some(TerritoryCode::US),
        1226 => Some(TerritoryCode::CA),
        1228 => Some(TerritoryCode::US),
        1229 => Some(TerritoryCode::US),
        1231 => Some(TerritoryCode::US),
        1234 => Some(TerritoryCode::US),
        1236 => Some(TerritoryCode::CA),
        1239 => Some(TerritoryCode::US),
        1240 => Some(TerritoryCode::US),
        1242 => Some(TerritoryCode::BS),
        1246 => Some(TerritoryCode::BB),
        1248 => Some(TerritoryCode::US),
        1249 => Some(TerritoryCode::CA),
        1250 => Some(TerritoryCode::CA),
        1251 => Some(TerritoryCode::US),
        1252 => Some(TerritoryCode::US),
        1253 => Some(TerritoryCode::US),
        1254 => Some(TerritoryCode::US),
        1256 => Some(TerritoryCode::US),
        1260 => Some(TerritoryCode::US),
        1262 => Some(TerritoryCode::US),
        1264 => Some(TerritoryCode::AI),
        1267 => Some(TerritoryCode::US),
        1268 => Some(TerritoryCode::AG),
        1269 => Some(TerritoryCode::US),
        1270 => Some(TerritoryCode::US),
        1272 => Some(TerritoryCode::US),
        1274 => Some(TerritoryCode::US),
        1276 => Some(TerritoryCode::US),
        1281 => Some(TerritoryCode::US),
        1284 => Some(TerritoryCode::VG),
        1289 => Some(TerritoryCode::CA),
        1301 => Some(TerritoryCode::US),
        1302 => Some(TerritoryCode::US),
        1303 => Some(TerritoryCode::US),
        1304 => Some(TerritoryCode::US),
        1305 => Some(TerritoryCode::US),
        1306 => Some(TerritoryCode::CA),
        1307 => Some(TerritoryCode::US),
        1308 => Some(TerritoryCode::US),
        1309 => Some(TerritoryCode::US),
        1310 => Some(TerritoryCode::US),
        1312 => Some(TerritoryCode::US),
        1313 => Some(TerritoryCode::US),
        1314 => Some(TerritoryCode::US),
        1315 => Some(TerritoryCode::US),
        1316 => Some(TerritoryCode::US),
        1317 => Some(TerritoryCode::US),
        1318 => Some(TerritoryCode::US),
        1319 => Some(TerritoryCode::US),
        1320 => Some(TerritoryCode::US),
        1321 => Some(TerritoryCode::US),
        1323 => Some(TerritoryCode::US),
        1325 => Some(TerritoryCode::US),
        1330 => Some(TerritoryCode::US),
        1331 => Some(TerritoryCode::US),
        1334 => Some(TerritoryCode::US),
        1336 => Some(TerritoryCode::US),
        1337 => Some(TerritoryCode::US),
        1339 => Some(TerritoryCode::US),
        1340 => Some(TerritoryCode::VI),
        1343 => Some(TerritoryCode::CA),
        1345 => Some(TerritoryCode::KY),
        1346 => Some(TerritoryCode::US),
        1347 => Some(TerritoryCode::US),
        1351 => Some(TerritoryCode::US),
        1352 => Some(TerritoryCode::US),
        1360 => Some(TerritoryCode::US),
        1361 => Some(TerritoryCode::US),
        1364 => Some(TerritoryCode::US),
        1365 => Some(TerritoryCode::CA),
        1385 => Some(TerritoryCode::US),
        1386 => Some(TerritoryCode::US),
        1401 => Some(TerritoryCode::US),
        1402 => Some(TerritoryCode::US),
        1403 => Some(TerritoryCode::CA),
        1404 => Some(TerritoryCode::US),
        1405 => Some(TerritoryCode::US),
        1406 => Some(TerritoryCode::US),
        1407 => Some(TerritoryCode::US),
        1408 => Some(TerritoryCode::US),
        1409 => Some(TerritoryCode::US),
        1410 => Some(TerritoryCode::US),
        1412 => Some(TerritoryCode::US),
        1413 => Some(TerritoryCode::US),
        1414 => Some(TerritoryCode::US),
        1415 => Some(TerritoryCode::US),
        1416 => Some(TerritoryCode::CA),
        1417 => Some(TerritoryCode::US),
        1418 => Some(TerritoryCode::CA),
        1419 => Some(TerritoryCode::US),
        1423 => Some(TerritoryCode::US),
        1424 => Some(TerritoryCode::US),
        1425 => Some(TerritoryCode::US),
        1430 => Some(TerritoryCode::US),
        1431 => Some(TerritoryCode::CA),
        1432 => Some(TerritoryCode::US),
        1434 => Some(TerritoryCode::US),
        1435 => Some(TerritoryCode::US),
        1437 => Some(TerritoryCode::CA),
        1438 => Some(TerritoryCode::CA),
        1440 => Some(TerritoryCode::US),
        1441 => Some(TerritoryCode::BM),
        1442 => Some(TerritoryCode::US),
        1443 => Some(TerritoryCode::US),
        1450 => Some(TerritoryCode::CA),
        1457 => Some(TerritoryCode::CA),
        1458 => Some(TerritoryCode::US),
        1469 => Some(TerritoryCode::US),
        1470 => Some(TerritoryCode::US),
        1473 => Some(TerritoryCode::GD),
        1475 => Some(TerritoryCode::US),
        1478 => Some(TerritoryCode::US),
        1479 => Some(TerritoryCode::US),
        1480 => Some(TerritoryCode::US),
        1484 => Some(TerritoryCode::US),
        1500 => Some(TerritoryCode::US),
        1501 => Some(TerritoryCode::US),
        1502 => Some(TerritoryCode::US),
        1503 => Some(TerritoryCode::US),
        1504 => Some(TerritoryCode::US),
        1505 => Some(TerritoryCode::US),
        1506 => Some(TerritoryCode::CA),
        1507 => Some(TerritoryCode::US),
        1508 => Some(TerritoryCode::US),
        1509 => Some(TerritoryCode::US),
        1510 => Some(TerritoryCode::US),
        1512 => Some(TerritoryCode::US),
        1513 => Some(TerritoryCode::US),
        1514 => Some(TerritoryCode::CA),
        1515 => Some(TerritoryCode::US),
        1516 => Some(TerritoryCode::US),
        1517 => Some(TerritoryCode::US),
        1518 => Some(TerritoryCode::US),
        1519 => Some(TerritoryCode::CA),
        1520 => Some(TerritoryCode::US),
        1530 => Some(TerritoryCode::US),
        1531 => Some(TerritoryCode::US),
        1533 => Some(TerritoryCode::US),
        1534 => Some(TerritoryCode::US),
        1539 => Some(TerritoryCode::US),
        1540 => Some(TerritoryCode::US),
        1541 => Some(TerritoryCode::US),
        1544 => Some(TerritoryCode::US),
        1551 => Some(TerritoryCode::US),
        1559 => Some(TerritoryCode::US),
        1561 => Some(TerritoryCode::US),
        1562 => Some(TerritoryCode::US),
        1563 => Some(TerritoryCode::US),
        1566 => Some(TerritoryCode::US),
        1567 => Some(TerritoryCode::US),
        1570 => Some(TerritoryCode::US),
        1571 => Some(TerritoryCode::US),
        1573 => Some(TerritoryCode::US),
        1574 => Some(TerritoryCode::US),
        1575 => Some(TerritoryCode::US),
        1577 => Some(TerritoryCode::US),
        1579 => Some(TerritoryCode::CA),
        1580 => Some(TerritoryCode::US),
        1581 => Some(TerritoryCode::CA),
        1585 => Some(TerritoryCode::US),
        1586 => Some(TerritoryCode::US),
        1587 => Some(TerritoryCode::CA),
        1600 => Some(TerritoryCode::CA),
        1601 => Some(TerritoryCode::US),
        1602 => Some(TerritoryCode::US),
        1603 => Some(TerritoryCode::US),
        1604 => Some(TerritoryCode::CA),
        1605 => Some(TerritoryCode::US),
        1606 => Some(TerritoryCode::US),
        1607 => Some(TerritoryCode::US),
        1608 => Some(TerritoryCode::US),
        1609 => Some(TerritoryCode::US),
        _ => None,
    }
}

fn nanp_high_lookup(prefix: u64) -> (r: Option<TerritoryCode>)
    ensures
        r == nanp_high_spec(prefix as nat),
{
    match prefix {
        1610 => Some(TerritoryCode::US),
        1612 => Some(TerritoryCode::US),
        1613 => Some(TerritoryCode::CA),
        1614 => Some(TerritoryCode::US),
        1615 => Some(TerritoryCode::US),
        1616 => Some(TerritoryCode::US),
        1617 => Some(TerritoryCode::US),
        1618 => Some(TerritoryCode::US),
        1619 => Some(TerritoryCode::US),
        1620 => Some(TerritoryCode::US),
        1623 => Some(TerritoryCode::US),
        1626 => Some(TerritoryCode::US),
        1628 => Some(TerritoryCode::US),
        1629 => Some(TerritoryCode::US),
        1630 => Some(TerritoryCode::US),
        1631 => Some(TerritoryCode::US),
        1636 => Some(TerritoryCode::US),
        1639 => Some(TerritoryCode::CA),
        1641 => Some(TerritoryCode::US),
        1646 => Some(TerritoryCode::US),
        1647 => Some(TerritoryCode::CA),
        1649 => Some(TerritoryCode::TC),
        1650 => Some(TerritoryCode::US),
        1651 => Some(TerritoryCode::US),
        1657 => Some(TerritoryCode::US),
        1660 => Some(TerritoryCode::US),
        1661 => Some(TerritoryCode::US),
        1662 => Some(TerritoryCode::US),
        1664 => Some(TerritoryCode::MS),
        1667 => Some(TerritoryCode::US),
        1669 => Some(TerritoryCode::US),
        1670 => Some(TerritoryCode::MP),
        1671 => Some(TerritoryCode::GU),
        1678 => Some(TerritoryCode::US),
        1681 => Some(TerritoryCode::US),
        1682 => Some(TerritoryCode::US),
        1684 => Some(TerritoryCode::AS),
        1700 => Some(TerritoryCode::US),
        1701 => Some(TerritoryCode::US),
        1702 => Some(TerritoryCode::US),
        1703 => Some(TerritoryCode::US),
        1704 => Some(TerritoryCode::US),
        1705 => Some(TerritoryCode::CA),
        1706 => Some(TerritoryCode::US),
        1707 => Some(TerritoryCode::US),
        1708 => Some(TerritoryCode::US),
        1709 => Some(TerritoryCode::CA),
        1710 => Some(TerritoryCode::US),
        1712 => Some(TerritoryCode::US),
        1713 => Some(TerritoryCode::US),
        1714 => Some(TerritoryCode::US),
        1715 => Some(TerritoryCode::US),
        1716 => Some(TerritoryCode::US),
        1717 => Some(TerritoryCode::US),
        1718 => Some(TerritoryCode::US),
        1719 => Some(TerritoryCode::US),
        1720 => Some(TerritoryCode::US),
        1721 => Some(TerritoryCode::SX),
        1724 => Some(TerritoryCode::US),
        1725 => Some(TerritoryCode::US),
        1727 => Some(TerritoryCode::US),
        1731 => Some(TerritoryCode::US),
        1732 => Some(TerritoryCode::US),
        1734 => Some(TerritoryCode::US),
        1737 => Some(TerritoryCode::US),
        1740 => Some(TerritoryCode::US),
        1747 => Some(TerritoryCode::US),
        1754 => Some(TerritoryCode::US),
        1757 => Some(TerritoryCode::US),
        1758 => Some(TerritoryCode::LC),
        1760 => Some(TerritoryCode::US),
        1762 => Some(TerritoryCode::US),
        1763 => Some(TerritoryCode::US),
        1765 => Some(TerritoryCode::US),
        1767 => Some(TerritoryCode::DM),
        1769 => Some(TerritoryCode::US),
        1770 => Some(TerritoryCode::US),
        1772 => Some(TerritoryCode::US),
        1773 => Some(TerritoryCode::US),
        1774 => Some(TerritoryCode::US),
        1775 => Some(TerritoryCode::US),
        1778 => Some(TerritoryCode::CA),
        1779 => Some(TerritoryCode::US),
        1780 => Some(TerritoryCode::CA),
        1781 => Some(TerritoryCode::US),
        1782 => Some(TerritoryCode::CA),
        1784 => Some(TerritoryCode::VC),
        1785 => Some(TerritoryCode::US),
        1786 => Some(TerritoryCode::US),
        1787 => Some(TerritoryCode::PR),
        1800 => Some(TerritoryCode::US),
        1801 => Some(TerritoryCode::US),
        1802 => Some(TerritoryCode::US),
        1803 => Some(TerritoryCode::US),
        1804 => Some(TerritoryCode::US),
        1805 => Some(TerritoryCode::US),
        1806 => Some(TerritoryCode::US),
        1807 => Some(TerritoryCode::CA),
        1808 => Some(TerritoryCode::US),
        1809 => Some(TerritoryCode::DO),
        1810 => Some(TerritoryCode::US),
        1812 => Some(TerritoryCode::US),
        1813 => Some(TerritoryCode::US),
        1814 => Some(TerritoryCode::US),
        1815 => Some(TerritoryCode::US),
        1816 => Some(TerritoryCode::US),
        1817 => Some(TerritoryCode::US),
        1818 => Some(TerritoryCode::US),
        1819 => Some(TerritoryCode::CA),
        1825 => Some(TerritoryCode::CA),
        1828 => Some(TerritoryCode::US),
        1829 => Some(TerritoryCode::DO),
        1830 => Some(TerritoryCode::US),
        1831 => Some(TerritoryCode::US),
        1832 => Some(TerritoryCode::US),
        1843 => Some(TerritoryCode::US),
        1844 => Some(TerritoryCode::US),
        1845 => Some(TerritoryCode::US),
        1847 => Some(TerritoryCode::US),
        1848 => Some(TerritoryCode::US),
        1849 => Some(TerritoryCode::DO),
        1850 => Some(TerritoryCode::US),
        1855 => Some(TerritoryCode::US),
        1856 => Some(TerritoryCode::US),
        1857 => Some(TerritoryCode::US),
        1858 => Some(TerritoryCode::US),
        1859 => Some(TerritoryCode::US),
        1860 => Some(TerritoryCode::US),
        1862 => Some(TerritoryCode::US),
        1863 => Some(TerritoryCode::US),
        1864 => Some(TerritoryCode::US),
        1865 => Some(TerritoryCode::US),
        1866 => Some(TerritoryCode::US),
        1867 => Some(TerritoryCode::CA),
        1868 => Some(TerritoryCode::TT),
        1869 => Some(TerritoryCode::KN),
        1870 => Some(TerritoryCode::US),
        1872 => Some(TerritoryCode::US),
        1873 => Some(TerritoryCode::CA),
        1876 => Some(TerritoryCode::JM),
        1877 => Some(TerritoryCode::US),
        1878 => Some(TerritoryCode::US),
        1888 => Some(TerritoryCode::US),
        1900 => Some(TerritoryCode::US),
        1901 => Some(TerritoryCode::US),
        1902 => Some(TerritoryCode::CA),
        1903 => Some(TerritoryCode::US),
        1904 => Some(TerritoryCode::US),
        1905 => Some(TerritoryCode::CA),
        1906 => Some(TerritoryCode::US),
        1907 => Some(TerritoryCode::US),
        1908 => Some(TerritoryCode::US),
        1909 => Some(TerritoryCode::US),
        1910 => Some(TerritoryCode::US),
        1912 => Some(TerritoryCode::US),
        1913 => Some(TerritoryCode::US),
        1914 => Some(TerritoryCode::US),
        1915 => Some(TerritoryCode::US),
        1916 => Some(TerritoryCode::US),
        1917 => Some(TerritoryCode::US),
        1918 => Some(TerritoryCode::US),
        1919 => Some(TerritoryCode::US),
        1920 => Some(TerritoryCode::US),
        1925 => Some(TerritoryCode::US),
        1928 => Some(TerritoryCode::US),
        1929 => Some(TerritoryCode::US),
        1930 => Some(TerritoryCode::US),
        1931 => Some(TerritoryCode::US),
        1935 => Some(TerritoryCode::US),
        1936 => Some(TerritoryCode::US),
        1937 => Some(TerritoryCode::US),
        1938 => Some(TerritoryCode::US),
        1939 => Some(TerritoryCode::PR),
        1940 => Some(TerritoryCode::US),
        1941 => Some(TerritoryCode::US),
        1947 => Some(TerritoryCode::US),
        1949 => Some(TerritoryCode::US),
        1951 => Some(TerritoryCode::US),
        1952 => Some(TerritoryCode::US),
        1954 => Some(TerritoryCode::US),
        1956 => Some(TerritoryCode::US),
        1959 => Some(TerritoryCode::US),
        1970 => Some(TerritoryCode::US),
        1971 => Some(TerritoryCode::US),
        1972 => Some(TerritoryCode::US),
        1973 => Some(TerritoryCode::US),
        1978 => Some(TerritoryCode::US),
        1979 => Some(TerritoryCode::US),
        1980 => Some(TerritoryCode::US),
        1984 => Some(TerritoryCode::US),
        1985 => Some(TerritoryCode::US),
        1989 => Some(TerritoryCode::US),
        _ => None,
    }
}

fn short_prefix_lookup(prefix: u64) -> (r: Option<TerritoryCode>)
    ensures
        r == short_prefix_spec(prefix as nat),
{
    match prefix {
        7 => Some(TerritoryCode::RU),
        20 => Some(TerritoryCode::EG),
        27 => Some(TerritoryCode::ZA),
        30 => Some(TerritoryCode::GR),
        31 => Some(TerritoryCode::NL),
        32 => Some(TerritoryCode::BE),
        33 => Some(TerritoryCode::FR),
        34 => Some(TerritoryCode::ES),
        36 => Some(TerritoryCode::HU),
        39 => Some(TerritoryCode::IT),
        40 => Some(TerritoryCode::RO),
        41 => Some(TerritoryCode::CH),
        43 => Some(TerritoryCode::AT),
        44 => Some(TerritoryCode::GB),
        45 => Some(TerritoryCode::DK),
        46 => Some(TerritoryCode::SE),
        47 => Some(TerritoryCode::NO),
        48 => Some(TerritoryCode::PL),
        49 => Some(TerritoryCode::DE),
        51 => Some(TerritoryCode::PE),
        52 => Some(TerritoryCode::MX),
        53 => Some(TerritoryCode::CU),
        54 => Some(TerritoryCode::AR),
        55 => Some(TerritoryCode::BR),
        56 => Some(TerritoryCode::CL),
        57 => Some(TerritoryCode::CO),
        58 => Some(TerritoryCode::VE),
        60 => Some(TerritoryCode::MY),
        61 => Some(TerritoryCode::AU),
        62 => Some(TerritoryCode::ID),
        63 => Some(TerritoryCode::PH),
        64 => Some(TerritoryCode::NZ),
        65 => Some(TerritoryCode::SG),
        66 => Some(TerritoryCode::TH),
        76 => Some(TerritoryCode::KZ),
        77 => Some(TerritoryCode::KZ),
        81 => Some(TerritoryCode::JP),
        82 => Some(TerritoryCode::KR),
        84 => Some(TerritoryCode::VN),
        86 => Some(TerritoryCode::CN),
        90 => Some(TerritoryCode::TR),
        91 => Some(TerritoryCode::IN),
        92 => Some(TerritoryCode::PK),
        93 => Some(TerritoryCode::AF),
        94 => Some(TerritoryCode::LK),
        95 => Some(TerritoryCode::MM),
        98 => Some(TerritoryCode::IR),
        211 => Some(TerritoryCode::SS),
        212 => Some(TerritoryCode::MA),
        213 => Some(TerritoryCode::DZ),
        216 => Some(TerritoryCode::TN),
        218 => Some(TerritoryCode::LY),
        220 => Some(TerritoryCode::GM),
        221 => Some(TerritoryCode::SN),
        222 => Some(TerritoryCode::MR),
        223 => Some(TerritoryCode::ML),
        224 => Some(TerritoryCode::GN),
        225 => Some(TerritoryCode::CI),
        226 => Some(TerritoryCode::BF),
        227 => Some(TerritoryCode::NE),
        228 => Some(TerritoryCode::TG),
        229 => Some(TerritoryCode::BJ),
        230 => Some(TerritoryCode::MU),
        231 => Some(TerritoryCode::LR),
        232 => Some(TerritoryCode::SL),
        233 => Some(TerritoryCode::GH),
        234 => Some(TerritoryCode::NG),
        235 => Some(TerritoryCode::TD),
        236 => Some(TerritoryCode::CF),
        237 => Some(TerritoryCode::CM),
        238 => Some(TerritoryCode::CV),
        239 => Some(TerritoryCode::ST),
        240 => Some(TerritoryCode::GQ),
        241 => Some(TerritoryCode::GA),
        242 => Some(TerritoryCode::CG),
        243 => Some(TerritoryCode::CD),
        244 => Some(TerritoryCode::AO),
        245 => Some(TerritoryCode::GW),
        246 => Some(TerritoryCode::IO),
        247 => Some(TerritoryCode::AC),
        248 => Some(TerritoryCode::SC),
        249 => Some(TerritoryCode::SD),
        250 => Some(TerritoryCode::RW),
        251 => Some(TerritoryCode::ET),
        252 => Some(TerritoryCode::SO),
        253 => Some(TerritoryCode::DJ),
        254 => Some(TerritoryCode::KE),
        255 => Some(TerritoryCode::TZ),
        256 => Some(TerritoryCode::UG),
        257 => Some(TerritoryCode::BI),
        258 => Some(TerritoryCode::MZ),
        260 => Some(TerritoryCode::ZM),
        261 => Some(TerritoryCode::MG),
        262 => Some(TerritoryCode::RE),
        263 => Some(TerritoryCode::ZW),
        264 => Some(TerritoryCode::NA),
        265 => Some(TerritoryCode::MW),
        266 => Some(TerritoryCode::LS),
        267 => Some(TerritoryCode::BW),
        268 => Some(TerritoryCode::SZ),
        269 => Some(TerritoryCode::KM),
        290 => Some(TerritoryCode::SH),
        291 => Some(TerritoryCode::ER),
        297 => Some(TerritoryCode::AW),
        298 => Some(TerritoryCode::FO),
        299 => Some(TerritoryCode::GL),
        350 => Some(TerritoryCode::GI),
        351 => Some(TerritoryCode::PT),
        352 => Some(TerritoryCode::LU),
        353 => Some(TerritoryCode::IE),
        354 => Some(TerritoryCode::IS),
        355 => Some(TerritoryCode::AL),
        356 => Some(TerritoryCode::MT),
        357 => Some(TerritoryCode::CY),
        358 => Some(TerritoryCode::FI),
        359 => Some(TerritoryCode::BG),
        370 => Some(TerritoryCode::LT),
        371 => Some(TerritoryCode::LV),
        372 => Some(TerritoryCode::EE),
        373 => Some(TerritoryCode::MD),
        374 => Some(TerritoryCode::AM),
        375 => Some(TerritoryCode::BY),
        376 => Some(TerritoryCode::AD),
        377 => Some(TerritoryCode::MC),
        378 => Some(TerritoryCode::SM),
        379 => Some(TerritoryCode::VA),
        380 => Some(TerritoryCode::UA),
        381 => Some(TerritoryCode::RS),
        382 => Some(TerritoryCode::ME),
        385 => Some(TerritoryCode::HR),
        386 => Some(TerritoryCode::SI),
        387 => Some(TerritoryCode::BA),
        389 => Some(TerritoryCode::MK),
        420 => Some(TerritoryCode::CZ),
        421 => Some(TerritoryCode::SK),
        423 => Some(TerritoryCode::LI),
        500 => Some(TerritoryCode::FK),
        501 => Some(TerritoryCode::BZ),
        502 => Some(TerritoryCode::GT),
        503 => Some(TerritoryCode::SV),
        504 => Some(TerritoryCode::HN),
        505 => Some(TerritoryCode::NI),
        506 => Some(TerritoryCode::CR),
        507 => Some(TerritoryCode::PA),
        508 => Some(TerritoryCode::PM),
        509 => Some(TerritoryCode::HT),
        590 => Some(TerritoryCode::GP),
        591 => Some(TerritoryCode::BO),
        592 => Some(TerritoryCode::GY),
        593 => Some(TerritoryCode::EC),
        594 => Some(TerritoryCode::GF),
        595 => Some(TerritoryCode::PY),
        596 => Some(TerritoryCode::MQ),
        597 => Some(TerritoryCode::SR),
        598 => Some(TerritoryCode::UY),
        670 => Some(TerritoryCode::TL),
        673 => Some(TerritoryCode::BN),
        674 => Some(TerritoryCode::NR),
        675 => Some(TerritoryCode::PG),
        676 => Some(TerritoryCode::TO),
        677 => Some(TerritoryCode::SB),
        678 => Some(TerritoryCode::VU),
        679 => Some(TerritoryCode::FJ),
        680 => Some(TerritoryCode::PW),
        681 => Some(TerritoryCode::WF),
        682 => Some(TerritoryCode::CK),
        683 => Some(TerritoryCode::NU),
        685 => Some(TerritoryCode::WS),
        686 => Some(TerritoryCode::KI),
        687 => Some(TerritoryCode::NC),
        688 => Some(TerritoryCode::TV),
        689 => Some(TerritoryCode::PF),
        690 => Some(TerritoryCode::TK),
        691 => Some(TerritoryCode::FM),
        692 => Some(TerritoryCode::MH),
        800 => Some(TerritoryCode::XT),
        808 => Some(TerritoryCode::XS),
        850 => Some(TerritoryCode::KP),
        852 => Some(TerritoryCode::HK),
        853 => Some(TerritoryCode::MO),
        855 => Some(TerritoryCode::KH),
        856 => Some(TerritoryCode::LA),
        870 => Some(TerritoryCode::XN),
        878 => Some(TerritoryCode::XP),
        880 => Some(TerritoryCode::BD),
        881 => Some(TerritoryCode::XG),
        882 => Some(TerritoryCode::XV),
        883 => Some(TerritoryCode::XV),
        886 => Some(TerritoryCode::TW),
        960 => Some(TerritoryCode::MV),
        961 => Some(TerritoryCode::LB),
        962 => Some(TerritoryCode::JO),
        963 => Some(TerritoryCode::SY),
        964 => Some(TerritoryCode::IQ),
        965 => Some(TerritoryCode::KW),
        966 => Some(TerritoryCode::SA),
        967 => Some(TerritoryCode::YE),
        968 => Some(TerritoryCode::OM),
        970 => Some(TerritoryCode::PS),
        971 => Some(TerritoryCode::AE),
        972 => Some(TerritoryCode::IL),
        973 => Some(TerritoryCode::BH),
        974 => Some(TerritoryCode::QA),
        975 => Some(TerritoryCode::BT),
        976 => Some(TerritoryCode::MN),
        977 => Some(TerritoryCode::NP),
        992 => Some(TerritoryCode::TJ),
        993 => Some(TerritoryCode::TM),
        994 => Some(TerritoryCode::AZ),
        995 => Some(TerritoryCode::GE),
        996 => Some(TerritoryCode::KG),
        998 => Some(TerritoryCode::UZ),
        _ => None,
    }
}

fn long_prefix_lookup(prefix: u64) -> (r: Option<TerritoryCode>)
    ensures
        r == long_prefix_spec(prefix as nat),
{
    match prefix {
        4779 => Some(TerritoryCode::SJ),
        5993 => Some(TerritoryCode::BQ),
        5994 => Some(TerritoryCode::BQ),
        5997 => Some(TerritoryCode::BQ),
        5999 => Some(TerritoryCode::CW),
        6721 => Some(TerritoryCode::AQ),
        6723 => Some(TerritoryCode::NF),
        35818 => Some(TerritoryCode::AX),
        262269 => Some(TerritoryCode::YT),
        262639 => Some(TerritoryCode::YT),
        441481 => Some(TerritoryCode::GG),
        441534 => Some(TerritoryCode::JE),
        441624 => Some(TerritoryCode::IM),
        6189162 => Some(TerritoryCode::CC),
        6189164 => Some(TerritoryCode::CX),
        _ => None,
    }
}

/// Looks a numeric prefix up in the table.
pub(crate) fn lookup_table(prefix: u64) -> (r: Option<TerritoryCode>)
    ensures
        r == lookup_spec(prefix as nat),
{
    if 1000 <= prefix && prefix < 2000 {
        if prefix < 1610 {
            nanp_low_lookup(prefix)
        } else {
            nanp_high_lookup(prefix)
        }
    } else if prefix < 1000 {
        short_prefix_lookup(prefix)
    } else {
        long_prefix_lookup(prefix)
    }
}

} // verus!
